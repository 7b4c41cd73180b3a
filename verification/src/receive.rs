//! Carrying out an incoming deletion, or the undoing of one, that has been accepted.

use vstd::pervasive::unreached;
use vstd::prelude::*;

use crate::actions::{
    Action, ActionView, AutomodReport, AutomodRule, BanFromCommunity, BanFromCommunityView,
    CommunityFollowerForm, CommunityPersonBanForm, DeletionError, ModBanFromCommunityForm,
    ModBanFromCommunityFormView, PersonUpdateForm, Reply, SendActivityData, SendActivityDataView,
};
use crate::automod::{
    automod_reason, ban_action, issuing_ban, mod_ban, mod_ban_form, no_automod_user, reason,
    AutomodConfig, AutomodConfigView,
};
use crate::clock::{happened_within, is_within};
use crate::lookup::{lookup_object, Lookup, LookupProgress};
use crate::objects::{
    text_of, CommentId, Community, CommunityId, CommunityView, DeletableObjects,
    DeletableObjectsView, Person, PersonId, PersonView, PostId, PrivateMessageId, Timestamp,
};
use crate::program::{
    attempt, command, find_person, success, update_person, with_community_ids, with_person,
    with_time, Plan, Program, Progress, Workflow,
};
use crate::send::{send_apub_delete_in_community, send_in_community, CommunitySend};
use crate::urls::Url;

verus! {

/// Tells the clients that are connected of the deletion or restoring of an object. Whatever
/// becomes of an object, this comes last.
pub open spec fn tell_clients<E>(object: DeletableObjectsView, deleted: bool) -> Program<E> {
    command(ActionView::SendWebsocketMessage { object, deleted }, success())
}

/// The ban of a person from one community.
pub open spec fn community_ban(community: CommunityId, person: PersonId) -> ActionView {
    ActionView::BanFromCommunity(
        CommunityPersonBanForm { community_id: community, person_id: person, expires: None },
    )
}

/// The end of a person's subscription to one community.
pub open spec fn unfollow(community: CommunityId, person: PersonId) -> ActionView {
    ActionView::Unfollow(
        CommunityFollowerForm { community_id: community, person_id: person, pending: false },
    )
}

/// The log entry for the ban of a person from one community.
pub open spec fn community_ban_entry(
    community: CommunityId,
    moderator: PersonId,
    person: PersonId,
) -> ActionView {
    ActionView::CreateModBanFromCommunity(
        ModBanFromCommunityFormView {
            mod_person_id: moderator,
            other_person_id: person,
            community_id: community,
            reason: automod_reason(),
            banned: Some(true),
            expires: None,
        },
    )
}

/// The news for the federation of the ban of a person from one community.
pub open spec fn community_ban_news(
    community: CommunityId,
    moderator: PersonView,
    person: PersonView,
) -> ActionView {
    ActionView::SubmitActivity(
        SendActivityDataView::BanFromCommunity {
            moderator,
            community_id: community,
            target: person,
            data: BanFromCommunityView {
                community_id: community,
                person_id: person.id,
                ban: true,
                reason: automod_reason(),
                remove_data: Some(true),
                expires: None,
            },
        },
    )
}

/// Bans a person from each of these communities in turn: writes the ban, ends the subscription,
/// logs the ban and tells the federation of it; and goes on. That the ban or the end of the
/// subscription cannot be written is no hindrance.
pub open spec fn ban_from_communities<E>(
    communities: Seq<CommunityId>,
    moderator: PersonView,
    person: PersonView,
    next: Program<E>,
) -> Program<E>
    decreases communities.len(),
{
    if communities.len() == 0 {
        next
    } else {
        attempt(
            community_ban(communities[0], person.id),
            attempt(
                unfollow(communities[0], person.id),
                command(
                    community_ban_entry(communities[0], moderator.id, person.id),
                    command(
                        community_ban_news(communities[0], moderator, person),
                        ban_from_communities(communities.skip(1), moderator, person, next),
                    ),
                ),
            ),
        )
    }
}

/// Bans a person from all local communities that they take part in, and goes on.
pub open spec fn ban_from_all<E>(
    moderator: PersonView,
    person: PersonView,
    next: Program<E>,
) -> Program<E> {
    with_community_ids(
        ActionView::ListLocalCommunityIds(person.id),
        |communities: Seq<CommunityId>|
            ban_from_communities(communities, moderator, person, next),
    )
}

/// Logs the ban of a person, bans them from all local communities, and goes on.
pub open spec fn log_ban<E>(
    moderator: PersonView,
    person: PersonView,
    next: Program<E>,
) -> Program<E> {
    command(
        ActionView::CreateModBan(mod_ban_form(moderator.id, person.id)),
        ban_from_all(moderator, person, next),
    )
}

/// Bans a person in the name of a moderator: writes the ban, removes what the person has
/// written, logs the ban, and bans them from all local communities; and goes on.
pub open spec fn ban_person<E>(
    moderator: PersonView,
    person: PersonId,
    next: Program<E>,
) -> Program<E> {
    update_person(
        ban_action(person),
        |banned: PersonView|
            command(ActionView::RemoveUserData(banned.id), log_ban(moderator, banned, next)),
    )
}

/// Bans a person in the name of the automatic moderator, or reports that there is none; and goes
/// on.
pub open spec fn ban_by_automod<E>(
    actor_username: Option<Seq<char>>,
    person: PersonId,
    next: Program<E>,
) -> Program<E> {
    match actor_username {
        Some(name) => find_person(
            ActionView::ReadLocalUserByName(name),
            |moderator: PersonView| ban_person(moderator, person, next),
        ),
        None => attempt(no_automod_user(AutomodRule::BanFederatedDeletedUser), next),
    }
}

/// Reports that the person with the URL `user` falls under the rule, bans them, and goes on.
pub open spec fn issue_ban<E>(
    actor_username: Option<Seq<char>>,
    person: PersonId,
    user: Seq<char>,
    next: Program<E>,
) -> Program<E> {
    attempt(
        issuing_ban(AutomodRule::BanFederatedDeletedUser, user),
        ban_by_automod(actor_username, person, next),
    )
}

/// Reads the time, bans the person if they were registered less than this number of days ago,
/// and goes on.
pub open spec fn ban_if_recent<E>(
    days: u64,
    actor_username: Option<Seq<char>>,
    person: PersonView,
    next: Program<E>,
) -> Program<E> {
    with_time(
        days,
        |now: Timestamp|
            if happened_within(person.published, now, days) {
                issue_ban(actor_username, person.id, person.actor_id, next)
            } else {
                next
            },
    )
}

/// Lets the automatic moderator look at an account that has been deleted, and goes on.
pub open spec fn moderate<E>(
    config: AutomodConfigView,
    person: PersonView,
    next: Program<E>,
) -> Program<E> {
    match config.ban_deleted_persons_created_within_days {
        Some(days) => ban_if_recent(days, config.actor_username, person, next),
        None => next,
    }
}

/// Deletes the account of a remote person, lets the automatic moderator look at it, and goes on.
pub open spec fn delete_person<E>(
    config: AutomodConfigView,
    person: PersonView,
    next: Program<E>,
) -> Program<E> {
    command(ActionView::DeleteAccount(person.id), moderate(config, person, next))
}

/// The change to the database that most deletions come down to.
#[derive(Clone, Copy, Debug)]
enum Write {
    Purge(PersonId),
    Community(CommunityId, bool),
    Post(PostId, bool),
    Comment(CommentId, bool),
    PrivateMessage(PrivateMessageId, bool),
}

impl Write {
    closed spec fn action(self) -> ActionView {
        match self {
            Write::Purge(id) => ActionView::PurgeUserAccount(id),
            Write::Community(id, deleted) => ActionView::UpdateCommunity { id, deleted },
            Write::Post(id, deleted) => ActionView::UpdatePost { id, deleted },
            Write::Comment(id, deleted) => ActionView::UpdateComment { id, deleted },
            Write::PrivateMessage(id, deleted) => ActionView::UpdatePrivateMessage { id, deleted },
        }
    }

    fn to_action(self) -> (res: Action)
        ensures
            res@ == self.action(),
    {
        match self {
            Write::Purge(id) => Action::PurgeUserAccount(id),
            Write::Community(id, deleted) => Action::UpdateCommunity { id, deleted },
            Write::Post(id, deleted) => Action::UpdatePost { id, deleted },
            Write::Comment(id, deleted) => Action::UpdateComment { id, deleted },
            Write::PrivateMessage(id, deleted) => Action::UpdatePrivateMessage { id, deleted },
        }
    }
}

/// Marks a community as deleted or restored, and goes on.
pub open spec fn write_community<E>(
    community: CommunityId,
    deleted: bool,
    next: Program<E>,
) -> Program<E> {
    command(ActionView::UpdateCommunity { id: community, deleted }, next)
}

/// Tells the followers of a local community of its deletion, in the name of the actor, marks it
/// as deleted or restored, and goes on.
pub open spec fn tell_followers<E>(
    actor: Seq<char>,
    community: CommunityView,
    deleted: bool,
    next: Program<E>,
) -> Program<E> {
    with_person(
        ActionView::Dereference(actor),
        |moderator: PersonView|
            send_in_community(
                moderator,
                community,
                DeletableObjectsView::Community(community),
                None,
                true,
                write_community(community.id, deleted, next),
            ),
    )
}

/// Deletes or restores a community, and goes on. Where it is a local one, its followers are told
/// first.
pub open spec fn delete_community<E>(
    actor: Seq<char>,
    community: CommunityView,
    deleted: bool,
    next: Program<E>,
) -> Program<E> {
    if community.local {
        tell_followers(actor, community, deleted, next)
    } else {
        write_community(community.id, deleted, next)
    }
}

/// Writes the deletion or restoring of an object, and goes on. Posts and comments that are as
/// asked already are left as they are, and so are persons who are to be restored.
pub open spec fn write_object<E>(
    actor: Seq<char>,
    deleted: bool,
    do_purge_user_account: Option<bool>,
    config: AutomodConfigView,
    object: DeletableObjectsView,
    next: Program<E>,
) -> Program<E> {
    match object {
        DeletableObjectsView::Community(c) => delete_community(actor, c, deleted, next),
        DeletableObjectsView::Person(p) => if !deleted {
            next
        } else if do_purge_user_account == Some(true) {
            command(ActionView::PurgeUserAccount(p.id), next)
        } else {
            delete_person(config, p, next)
        },
        DeletableObjectsView::Post(p) => if deleted != p.deleted {
            command(ActionView::UpdatePost { id: p.id, deleted }, next)
        } else {
            next
        },
        DeletableObjectsView::Comment(c) => if deleted != c.deleted {
            command(ActionView::UpdateComment { id: c.id, deleted }, next)
        } else {
            next
        },
        DeletableObjectsView::PrivateMessage(p) => command(
            ActionView::UpdatePrivateMessage { id: p.id, deleted },
            next,
        ),
    }
}

/// Carries out the deletion or restoring of an object: writes it, and tells the clients of it.
pub open spec fn receive_object<E>(
    actor: Seq<char>,
    deleted: bool,
    do_purge_user_account: Option<bool>,
    config: AutomodConfigView,
    object: DeletableObjectsView,
) -> Program<E> {
    write_object(
        actor,
        deleted,
        do_purge_user_account,
        config,
        object,
        tell_clients(object, deleted),
    )
}

/// How an incoming deletion goes on once the object that it is about is known.
pub open spec fn receive_step<E>(
    actor: Seq<char>,
    deleted: bool,
    do_purge_user_account: Option<bool>,
    config: AutomodConfigView,
) -> spec_fn(DeletableObjectsView) -> Program<E> {
    |object: DeletableObjectsView|
        receive_object(actor, deleted, do_purge_user_account, config, object)
}

/// Looks up the object that a deletion is about, and carries out its deletion or, where
/// `deleted` is unset, its restoring.
pub open spec fn receive<E>(
    object: Seq<char>,
    actor: Seq<char>,
    deleted: bool,
    do_purge_user_account: Option<bool>,
    config: AutomodConfigView,
) -> Program<E> {
    lookup_object(object, receive_step(actor, deleted, do_purge_user_account, config))
}

/// An incoming deletion that is being carried out.
pub struct DeleteReception {
    step: ReceiveStep,
}

#[allow(inconsistent_fields)]
enum ReceiveStep {
    Lookup {
        lookup: Lookup,
        actor: Url,
        deleted: bool,
        do_purge_user_account: Option<bool>,
        config: AutomodConfig,
    },
    Dereference { actor: Ghost<Seq<char>>, community: Community, news: News },
    Send { send: CommunitySend, community: CommunityId, news: News },
    Write { change: Write, news: News },
    DeletePerson { config: AutomodConfig, person: Person, news: News },
    ReadClock { days: u64, actor_username: Option<String>, person: Person, news: News },
    IssueBan {
        actor_username: Option<String>,
        person: PersonId,
        user: Ghost<Seq<char>>,
        news: News,
    },
    ReportNoModerator { news: News },
    FindModerator { name: Ghost<Seq<char>>, person: PersonId, news: News },
    Ban { moderator: Person, person: PersonId, news: News },
    RemoveData { moderator: Person, person: Person, news: News },
    LogBan { moderator: Person, person: Person, news: News },
    ListCommunities { moderator: Person, person: Person, news: News },
    Community {
        action: CommunityAction,
        communities: Vec<CommunityId>,
        index: usize,
        moderator: Person,
        person: Person,
        news: News,
    },
    TellClients { object: Ghost<DeletableObjectsView>, deleted: Ghost<bool> },
}

/// What the clients are told in the end.
struct News {
    object: DeletableObjects,
    deleted: bool,
}

impl News {
    spec fn program<E>(self) -> Program<E> {
        tell_clients(self.object@, self.deleted)
    }

    /// Goes on to tell the clients.
    fn tell<E>(self) -> (res: Progress<DeleteReception, E>)
        ensures
            res.well_formed(),
            res.program() == self.program::<E>(),
    {
        let step = ReceiveStep::TellClients {
            object: Ghost(self.object@),
            deleted: Ghost(self.deleted),
        };
        Progress::Await(
            DeleteReception { step },
            Action::SendWebsocketMessage { object: self.object, deleted: self.deleted },
        )
    }
}

/// What is done about one of the communities that a person is banned from.
#[derive(Clone, Copy, Debug)]
enum CommunityAction {
    Ban,
    Unfollow,
    LogBan,
    AnnounceBan,
}

/// The rest of the bans from communities, from this action on.
spec fn community_rest<E>(
    action: CommunityAction,
    communities: Seq<CommunityId>,
    moderator: PersonView,
    person: PersonView,
    next: Program<E>,
) -> Program<E> {
    let c = communities[0];
    let rest = ban_from_communities(communities.skip(1), moderator, person, next);
    match action {
        CommunityAction::Ban => ban_from_communities(communities, moderator, person, next),
        CommunityAction::Unfollow => attempt(
            unfollow(c, person.id),
            command(
                community_ban_entry(c, moderator.id, person.id),
                command(community_ban_news(c, moderator, person), rest),
            ),
        ),
        CommunityAction::LogBan => command(
            community_ban_entry(c, moderator.id, person.id),
            command(community_ban_news(c, moderator, person), rest),
        ),
        CommunityAction::AnnounceBan => command(community_ban_news(c, moderator, person), rest),
    }
}

impl DeleteReception {
    /// The position in the list of communities is one of the list.
    #[verifier::type_invariant]
    spec fn well_formed(self) -> bool {
        self.step matches ReceiveStep::Community { communities, index, .. } ==> index
            < communities@.len()
    }
}

impl<E> Plan<E> for DeleteReception {
    closed spec fn program(self) -> Program<E> {
        match self.step {
            ReceiveStep::Lookup { lookup, actor, deleted, do_purge_user_account, config } =>
                lookup.program_with(
                    receive_step(actor@, deleted, do_purge_user_account, config@),
                ),
            ReceiveStep::Dereference { actor, community, news } => tell_followers(
                actor@,
                community@,
                news.deleted,
                news.program(),
            ),
            ReceiveStep::Send { send, community, news } => send.program_before(
                write_community(community, news.deleted, news.program()),
            ),
            ReceiveStep::Write { change, news } => command(change.action(), news.program()),
            ReceiveStep::DeletePerson { config, person, news } => delete_person(
                config@,
                person@,
                news.program(),
            ),
            ReceiveStep::ReadClock { days, actor_username, person, news } => ban_if_recent(
                days,
                text_of(actor_username),
                person@,
                news.program(),
            ),
            ReceiveStep::IssueBan { actor_username, person, user, news } => issue_ban(
                text_of(actor_username),
                person,
                user@,
                news.program(),
            ),
            ReceiveStep::ReportNoModerator { news } => attempt(
                no_automod_user(AutomodRule::BanFederatedDeletedUser),
                news.program(),
            ),
            ReceiveStep::FindModerator { name, person, news } => ban_by_automod(
                Some(name@),
                person,
                news.program(),
            ),
            ReceiveStep::Ban { moderator, person, news } => ban_person(
                moderator@,
                person,
                news.program(),
            ),
            ReceiveStep::RemoveData { moderator, person, news } => command(
                ActionView::RemoveUserData(person.id),
                log_ban(moderator@, person@, news.program()),
            ),
            ReceiveStep::LogBan { moderator, person, news } => log_ban(
                moderator@,
                person@,
                news.program(),
            ),
            ReceiveStep::ListCommunities { moderator, person, news } => ban_from_all(
                moderator@,
                person@,
                news.program(),
            ),
            ReceiveStep::Community { action, communities, index, moderator, person, news } =>
                community_rest(
                    action,
                    communities@.skip(index as int),
                    moderator@,
                    person@,
                    news.program(),
                ),
            ReceiveStep::TellClients { object, deleted } => tell_clients(object@, deleted@),
        }
    }
}

/// Goes on with a change to the database.
fn write<E>(change: Write, news: News) -> (res: Progress<DeleteReception, E>)
    ensures
        res.well_formed(),
        res.program() == command(change.action(), news.program::<E>()),
{
    Progress::Await(
        DeleteReception { step: ReceiveStep::Write { change, news } },
        change.to_action(),
    )
}

/// The first action of the deletion of the object that was found.
fn start<E>(
    actor: Url,
    deleted: bool,
    do_purge_user_account: Option<bool>,
    config: AutomodConfig,
    object: DeletableObjects,
) -> (res: Progress<DeleteReception, E>)
    ensures
        res.well_formed(),
        res.program() == receive_object::<E>(
            actor@,
            deleted,
            do_purge_user_account,
            config@,
            object@,
        ),
{
    match object {
        DeletableObjects::Community(community) => {
            let news = News { object: DeletableObjects::Community(community.clone()), deleted };
            if community.local {
                let step = ReceiveStep::Dereference { actor: Ghost(actor@), community, news };
                Progress::Await(DeleteReception { step }, Action::Dereference(actor))
            } else {
                write(Write::Community(community.id, deleted), news)
            }
        },
        DeletableObjects::Person(person) => {
            let id: PersonId = person.id;
            let news = News { object: DeletableObjects::Person(person.clone()), deleted };
            if !deleted {
                news.tell()
            } else if do_purge_user_account.unwrap_or(false) {
                write(Write::Purge(id), news)
            } else {
                let step = ReceiveStep::DeletePerson { config, person, news };
                Progress::Await(DeleteReception { step }, Action::DeleteAccount(id))
            }
        },
        DeletableObjects::Post(post) => {
            let (id, was_deleted) = (post.id, post.deleted);
            let news = News { object: DeletableObjects::Post(post), deleted };
            if deleted != was_deleted {
                write(Write::Post(id, deleted), news)
            } else {
                news.tell()
            }
        },
        DeletableObjects::Comment(comment) => {
            let (id, was_deleted) = (comment.id, comment.deleted);
            let news = News { object: DeletableObjects::Comment(comment), deleted };
            if deleted != was_deleted {
                write(Write::Comment(id, deleted), news)
            } else {
                news.tell()
            }
        },
        DeletableObjects::PrivateMessage(pm) => {
            let id: PrivateMessageId = pm.id;
            let news = News { object: DeletableObjects::PrivateMessage(pm), deleted };
            write(Write::PrivateMessage(id, deleted), news)
        },
    }
}

/// Goes on with the ban from the community at the position, if the list goes that far.
fn ban_from_next<E>(
    communities: Vec<CommunityId>,
    index: usize,
    moderator: Person,
    person: Person,
    news: News,
) -> (res: Progress<DeleteReception, E>)
    requires
        index <= communities@.len(),
    ensures
        res.well_formed(),
        res.program() == ban_from_communities::<E>(
            communities@.skip(index as int),
            moderator@,
            person@,
            news.program(),
        ),
{
    if index == communities.len() {
        return news.tell();
    }
    let form = CommunityPersonBanForm {
        community_id: communities[index],
        person_id: person.id,
        expires: None,
    };
    let step = ReceiveStep::Community {
        action: CommunityAction::Ban,
        communities,
        index,
        moderator,
        person,
        news,
    };
    Progress::Await(DeleteReception { step }, Action::BanFromCommunity(form))
}

/// Goes on after an action about the community at the position.
fn after_community_action<E>(
    action: CommunityAction,
    communities: Vec<CommunityId>,
    index: usize,
    moderator: Person,
    person: Person,
    news: News,
) -> (res: Progress<DeleteReception, E>)
    requires
        index < communities@.len(),
    ensures
        res.well_formed(),
        ({
            let rest = communities@.skip(index as int);
            let announce = community_rest::<E>(
                CommunityAction::AnnounceBan,
                rest,
                moderator@,
                person@,
                news.program(),
            );
            let log = community_rest::<E>(
                CommunityAction::LogBan,
                rest,
                moderator@,
                person@,
                news.program(),
            );
            let leave = community_rest::<E>(
                CommunityAction::Unfollow,
                rest,
                moderator@,
                person@,
                news.program(),
            );
            res.program() == match action {
                CommunityAction::Ban => leave,
                CommunityAction::Unfollow => log,
                CommunityAction::LogBan => announce,
                CommunityAction::AnnounceBan => ban_from_communities(
                    rest.skip(1),
                    moderator@,
                    person@,
                    news.program(),
                ),
            }
        }),
{
    let community: CommunityId = communities[index];
    match action {
        CommunityAction::Ban => {
            let form = CommunityFollowerForm {
                community_id: community,
                person_id: person.id,
                pending: false,
            };
            let step = ReceiveStep::Community {
                action: CommunityAction::Unfollow,
                communities,
                index,
                moderator,
                person,
                news,
            };
            Progress::Await(DeleteReception { step }, Action::Unfollow(form))
        },
        CommunityAction::Unfollow => {
            let form = ModBanFromCommunityForm {
                mod_person_id: moderator.id,
                other_person_id: person.id,
                community_id: community,
                reason: reason(),
                banned: Some(true),
                expires: None,
            };
            let step = ReceiveStep::Community {
                action: CommunityAction::LogBan,
                communities,
                index,
                moderator,
                person,
                news,
            };
            Progress::Await(DeleteReception { step }, Action::CreateModBanFromCommunity(form))
        },
        CommunityAction::LogBan => {
            let data = SendActivityData::BanFromCommunity {
                moderator: moderator.clone(),
                community_id: community,
                target: person.clone(),
                data: BanFromCommunity {
                    community_id: community,
                    person_id: person.id,
                    ban: true,
                    reason: reason(),
                    remove_data: Some(true),
                    expires: None,
                },
            };
            let step = ReceiveStep::Community {
                action: CommunityAction::AnnounceBan,
                communities,
                index,
                moderator,
                person,
                news,
            };
            Progress::Await(DeleteReception { step }, Action::SubmitActivity(data))
        },
        CommunityAction::AnnounceBan => {
            assert(index < communities.len());
            assert(communities@.skip(index as int).skip(1) =~= communities@.skip(index + 1));
            ban_from_next(communities, index + 1, moderator, person, news)
        },
    }
}

impl<E> Workflow<E> for DeleteReception {
    fn resume(self, reply: Reply<E>) -> (next: Progress<Self, E>) {
        proof {
            use_type_invariant(&self);
        }
        match self.step {
            ReceiveStep::Lookup { lookup, actor, deleted, do_purge_user_account, config } =>
                match lookup.resume(reply) {
                    LookupProgress::Await(lookup, action) => {
                        let step = ReceiveStep::Lookup {
                            lookup,
                            actor,
                            deleted,
                            do_purge_user_account,
                            config,
                        };
                        Progress::Await(DeleteReception { step }, action)
                    },
                    LookupProgress::Complete(Ok(object)) => start(
                        actor,
                        deleted,
                        do_purge_user_account,
                        config,
                        object,
                    ),
                    LookupProgress::Complete(Err(e)) => Progress::Complete(Err(e)),
                },
            ReceiveStep::Dereference { community, news, .. } => match reply {
                Reply::Person(Ok(moderator)) => {
                    let id: CommunityId = community.id;
                    let object = DeletableObjects::Community(community.clone());
                    match send_apub_delete_in_community(moderator, community, object, None, true) {
                        Progress::Await(send, action) => Progress::Await(
                            DeleteReception {
                                step: ReceiveStep::Send { send, community: id, news },
                            },
                            action,
                        ),
                        Progress::Complete(r) => Progress::Complete(r),
                    }
                },
                Reply::Person(Err(e)) => Progress::Complete(Err(DeletionError::Service(e))),
                _ => unreached(),
            },
            ReceiveStep::Send { send, community, news } => match send.proceed(reply) {
                Progress::Await(send, action) => Progress::Await(
                    DeleteReception { step: ReceiveStep::Send { send, community, news } },
                    action,
                ),
                Progress::Complete(Ok(_)) => write(
                    Write::Community(community, news.deleted),
                    news,
                ),
                Progress::Complete(Err(e)) => Progress::Complete(Err(e)),
            },
            ReceiveStep::Write { news, .. } => match reply {
                Reply::Done(Ok(_)) => news.tell(),
                Reply::Done(Err(e)) => Progress::Complete(Err(DeletionError::Service(e))),
                _ => unreached(),
            },
            ReceiveStep::DeletePerson { config, person, news } => match reply {
                Reply::Done(Ok(_)) => match config.ban_deleted_persons_created_within_days {
                    Some(days) => {
                        let step = ReceiveStep::ReadClock {
                            days,
                            actor_username: config.actor_username,
                            person,
                            news,
                        };
                        Progress::Await(
                            DeleteReception { step },
                            Action::ReadClock { days_back: days },
                        )
                    },
                    None => news.tell(),
                },
                Reply::Done(Err(e)) => Progress::Complete(Err(DeletionError::Service(e))),
                _ => unreached(),
            },
            ReceiveStep::ReadClock { days, actor_username, person, news } => match reply {
                Reply::Time(now) => {
                    if !is_within(person.published, now, days) {
                        return news.tell();
                    }
                    let step = ReceiveStep::IssueBan {
                        actor_username,
                        person: person.id,
                        user: Ghost(person.actor_id@),
                        news,
                    };
                    let report = AutomodReport::IssuingBan {
                        rule: AutomodRule::BanFederatedDeletedUser,
                        user: person.actor_id.into_string(),
                    };
                    Progress::Await(DeleteReception { step }, Action::Log(report))
                },
                _ => unreached(),
            },
            ReceiveStep::IssueBan { actor_username, person, news, .. } => match actor_username {
                Some(name) => {
                    let step = ReceiveStep::FindModerator { name: Ghost(name@), person, news };
                    Progress::Await(DeleteReception { step }, Action::ReadLocalUserByName(name))
                },
                None => Progress::Await(
                    DeleteReception { step: ReceiveStep::ReportNoModerator { news } },
                    Action::Log(
                        AutomodReport::NoAutomodUser {
                            rule: AutomodRule::BanFederatedDeletedUser,
                        },
                    ),
                ),
            },
            ReceiveStep::ReportNoModerator { news } => news.tell(),
            ReceiveStep::FindModerator { person, news, .. } => match reply {
                Reply::FoundPerson(Ok(Some(moderator))) => {
                    let form = PersonUpdateForm { banned: Some(true), ban_expires: Some(None) };
                    Progress::Await(
                        DeleteReception { step: ReceiveStep::Ban { moderator, person, news } },
                        Action::UpdatePerson(person, form),
                    )
                },
                Reply::FoundPerson(Ok(None)) => {
                    Progress::Complete(Err(DeletionError::CouldntFindPerson))
                },
                Reply::FoundPerson(Err(e)) => Progress::Complete(Err(DeletionError::Service(e))),
                _ => unreached(),
            },
            ReceiveStep::Ban { moderator, news, .. } => match reply {
                Reply::Person(Ok(person)) => {
                    let action = Action::RemoveUserData(person.id);
                    Progress::Await(
                        DeleteReception {
                            step: ReceiveStep::RemoveData { moderator, person, news },
                        },
                        action,
                    )
                },
                Reply::Person(Err(e)) => {
                    Progress::Complete(Err(DeletionError::CouldntUpdateUser(e)))
                },
                _ => unreached(),
            },
            ReceiveStep::RemoveData { moderator, person, news } => match reply {
                Reply::Done(Ok(_)) => {
                    let action = Action::CreateModBan(mod_ban(moderator.id, person.id));
                    Progress::Await(
                        DeleteReception { step: ReceiveStep::LogBan { moderator, person, news } },
                        action,
                    )
                },
                Reply::Done(Err(e)) => Progress::Complete(Err(DeletionError::Service(e))),
                _ => unreached(),
            },
            ReceiveStep::LogBan { moderator, person, news } => match reply {
                Reply::Done(Ok(_)) => {
                    let action = Action::ListLocalCommunityIds(person.id);
                    Progress::Await(
                        DeleteReception {
                            step: ReceiveStep::ListCommunities { moderator, person, news },
                        },
                        action,
                    )
                },
                Reply::Done(Err(e)) => Progress::Complete(Err(DeletionError::Service(e))),
                _ => unreached(),
            },
            ReceiveStep::ListCommunities { moderator, person, news } => match reply {
                Reply::CommunityIds(Ok(communities)) => {
                    assert(communities@.skip(0) =~= communities@);
                    ban_from_next(communities, 0, moderator, person, news)
                },
                Reply::CommunityIds(Err(e)) => Progress::Complete(Err(DeletionError::Service(e))),
                _ => unreached(),
            },
            ReceiveStep::Community { action, communities, index, moderator, person, news } =>
                match (action, reply) {
                    (CommunityAction::LogBan, Reply::Done(Err(e)))
                    | (CommunityAction::AnnounceBan, Reply::Done(Err(e))) => Progress::Complete(
                        Err(DeletionError::Service(e)),
                    ),
                    _ => after_community_action(
                        action,
                        communities,
                        index,
                        moderator,
                        person,
                        news,
                    ),
                },
            ReceiveStep::TellClients { .. } => match reply {
                Reply::Done(Ok(_)) => Progress::Complete(Ok(())),
                Reply::Done(Err(e)) => Progress::Complete(Err(DeletionError::Service(e))),
                _ => unreached(),
            },
        }
    }
}

/// Starts to carry out the deletion of the object with the URL `object` or, where `deleted` is
/// unset, its restoring, and to tell the clients of it. The account of a person is purged where
/// `do_purge_user_account` is set to true, and marked as deleted otherwise.
pub fn receive_delete_action<E>(
    object: &Url,
    actor: &Url,
    deleted: bool,
    do_purge_user_account: Option<bool>,
    config: AutomodConfig,
) -> (res: Progress<DeleteReception, E>)
    ensures
        res.well_formed(),
        res.program() == receive::<E>(object@, actor@, deleted, do_purge_user_account, config@),
{
    let (lookup, action) = DeletableObjects::read_from_db(object);
    let step = ReceiveStep::Lookup {
        lookup,
        actor: actor.clone(),
        deleted,
        do_purge_user_account,
        config,
    };
    Progress::Await(DeleteReception { step }, action)
}

} // verus!
