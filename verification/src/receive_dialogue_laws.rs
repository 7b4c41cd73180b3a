//! What is asked and answered when an incoming deletion is carried out.

use vstd::prelude::*;

use crate::actions::{
    ActionView, AutomodReportView, AutomodRule, BanFromCommunityView, CommunityFollowerForm,
    CommunityPersonBanForm, DeletionError, ModBanFormView, ModBanFromCommunityFormView,
    NewActivityView, PersonUpdateForm, ReplyView, SendActivityDataView,
};
use crate::activities::{ActivitySendTargetsView, AnnouncableActivitiesView, DeleteView};
use crate::automod::AutomodConfigView;
use crate::dialogue_laws::{
    a_search_fails_for_causes, an_object_is_found, can_be_set_back, cause, dialogue,
    dialogues_can_be_joined, errors_have_causes, fails_for_causes, finding, finding_nothing,
    is_younger, later_cause, no_object_is_found, not_found_means_that_nothing_was_found,
};
use crate::objects::{
    CommentView, CommunityId, CommunityView, DeletableObjectsView, PersonView, PostView,
    PrivateMessageView, Timestamp,
};
use crate::program::{actions, attempt, command, conforms, remainder, success, Program};
use crate::receive::{
    ban_by_automod, ban_from_all, ban_from_communities, ban_if_recent, ban_person,
    community_ban_entry, community_ban_news, delete_person, issue_ban, log_ban, moderate, receive,
    receive_object, receive_step, tell_clients, tell_followers, unfollow, write_community,
};
use crate::send::{announce, send_in_community};

verus! {

/// An action, and the reply that it was done.
pub open spec fn done<E>(a: ActionView) -> (ActionView, ReplyView<E>) {
    (a, ReplyView::Done(Ok(())))
}

/// The clients are told of the deletion or restoring of an object.
pub open spec fn told<E>(object: DeletableObjectsView, deleted: bool) -> (
    ActionView,
    ReplyView<E>,
) {
    done(ActionView::SendWebsocketMessage { object, deleted })
}

/// An incoming deletion of an object that does not exist ends with `NotFound`.
pub proof fn nothing_is_not_found<E>(
    object: Seq<char>,
    actor: Seq<char>,
    deleted: bool,
    do_purge_user_account: Option<bool>,
    config: AutomodConfigView,
)
    ensures
        dialogue(
            receive::<E>(object, actor, deleted, do_purge_user_account, config),
            finding_nothing(object),
            Program::Return(Err(DeletionError::NotFound)),
        ),
{
    no_object_is_found(
        object,
        receive_step::<E>(actor, deleted, do_purge_user_account, config),
    );
}

proof fn object_is_received<E>(
    object: Seq<char>,
    actor: Seq<char>,
    deleted: bool,
    do_purge_user_account: Option<bool>,
    config: AutomodConfigView,
    o: DeletableObjectsView,
    lines: Seq<(ActionView, ReplyView<E>)>,
    end: Program<E>,
)
    requires
        dialogue(
            receive_object::<E>(actor, deleted, do_purge_user_account, config, o),
            lines,
            end,
        ),
    ensures
        dialogue(
            receive::<E>(object, actor, deleted, do_purge_user_account, config),
            finding(object, o) + lines,
            end,
        ),
{
    let next = receive_step::<E>(actor, deleted, do_purge_user_account, config);
    an_object_is_found(object, next, o);
    dialogues_can_be_joined(
        receive::<E>(object, actor, deleted, do_purge_user_account, config),
        finding(object, o),
        next(o),
        lines,
        end,
    );
}

/// A post is marked as deleted or restored where it is not so yet, whatever the settings; the
/// clients are told in any case; and it ends well.
pub proof fn a_post_is_deleted_or_restored<E>(
    object: Seq<char>,
    actor: Seq<char>,
    deleted: bool,
    do_purge_user_account: Option<bool>,
    config: AutomodConfigView,
    post: PostView,
)
    ensures
        dialogue(
            receive::<E>(object, actor, deleted, do_purge_user_account, config),
            finding(object, DeletableObjectsView::Post(post)) + if post.deleted == deleted {
                seq![told(DeletableObjectsView::Post(post), deleted)]
            } else {
                seq![
                    done(ActionView::UpdatePost { id: post.id, deleted }),
                    told(DeletableObjectsView::Post(post), deleted),
                ]
            },
            Program::Return(Ok(())),
        ),
{
    reveal_with_fuel(dialogue, 4);
    object_is_received::<E>(
        object,
        actor,
        deleted,
        do_purge_user_account,
        config,
        DeletableObjectsView::Post(post),
        if post.deleted == deleted {
            seq![told(DeletableObjectsView::Post(post), deleted)]
        } else {
            seq![
                done(ActionView::UpdatePost { id: post.id, deleted }),
                told(DeletableObjectsView::Post(post), deleted),
            ]
        },
        Program::Return(Ok(())),
    );
}

/// A comment is marked as deleted or restored where it is not so yet, whatever the settings; the
/// clients are told in any case; and it ends well.
pub proof fn a_comment_is_deleted_or_restored<E>(
    object: Seq<char>,
    actor: Seq<char>,
    deleted: bool,
    do_purge_user_account: Option<bool>,
    config: AutomodConfigView,
    comment: CommentView,
)
    ensures
        dialogue(
            receive::<E>(object, actor, deleted, do_purge_user_account, config),
            finding(object, DeletableObjectsView::Comment(comment)) + if comment.deleted
                == deleted {
                seq![told(DeletableObjectsView::Comment(comment), deleted)]
            } else {
                seq![
                    done(ActionView::UpdateComment { id: comment.id, deleted }),
                    told(DeletableObjectsView::Comment(comment), deleted),
                ]
            },
            Program::Return(Ok(())),
        ),
{
    reveal_with_fuel(dialogue, 4);
    object_is_received::<E>(
        object,
        actor,
        deleted,
        do_purge_user_account,
        config,
        DeletableObjectsView::Comment(comment),
        if comment.deleted == deleted {
            seq![told(DeletableObjectsView::Comment(comment), deleted)]
        } else {
            seq![
                done(ActionView::UpdateComment { id: comment.id, deleted }),
                told(DeletableObjectsView::Comment(comment), deleted),
            ]
        },
        Program::Return(Ok(())),
    );
}

/// A private message is marked as deleted or restored, whatever the settings; the clients are
/// told; and it ends well.
pub proof fn a_private_message_is_deleted_or_restored<E>(
    object: Seq<char>,
    actor: Seq<char>,
    deleted: bool,
    do_purge_user_account: Option<bool>,
    config: AutomodConfigView,
    pm: PrivateMessageView,
)
    ensures
        dialogue(
            receive::<E>(object, actor, deleted, do_purge_user_account, config),
            finding(object, DeletableObjectsView::PrivateMessage(pm)) + seq![
                done(ActionView::UpdatePrivateMessage { id: pm.id, deleted }),
                told(DeletableObjectsView::PrivateMessage(pm), deleted),
            ],
            Program::Return(Ok(())),
        ),
{
    reveal_with_fuel(dialogue, 4);
    object_is_received::<E>(
        object,
        actor,
        deleted,
        do_purge_user_account,
        config,
        DeletableObjectsView::PrivateMessage(pm),
        seq![
            done(ActionView::UpdatePrivateMessage { id: pm.id, deleted }),
            told(DeletableObjectsView::PrivateMessage(pm), deleted),
        ],
        Program::Return(Ok(())),
    );
}

/// A remote community is marked as deleted or restored, whatever the settings; the clients are
/// told; and it ends well.
pub proof fn a_remote_community_is_deleted_or_restored<E>(
    object: Seq<char>,
    actor: Seq<char>,
    deleted: bool,
    do_purge_user_account: Option<bool>,
    config: AutomodConfigView,
    community: CommunityView,
)
    requires
        !community.local,
    ensures
        dialogue(
            receive::<E>(object, actor, deleted, do_purge_user_account, config),
            finding(object, DeletableObjectsView::Community(community)) + seq![
                done(ActionView::UpdateCommunity { id: community.id, deleted }),
                told(DeletableObjectsView::Community(community), deleted),
            ],
            Program::Return(Ok(())),
        ),
{
    reveal_with_fuel(dialogue, 4);
    object_is_received::<E>(
        object,
        actor,
        deleted,
        do_purge_user_account,
        config,
        DeletableObjectsView::Community(community),
        seq![
            done(ActionView::UpdateCommunity { id: community.id, deleted }),
            told(DeletableObjectsView::Community(community), deleted),
        ],
        Program::Return(Ok(())),
    );
}

/// What is done about a local community: its followers are told of a deletion in the name of the
/// actor, as the act of an owner; the community is marked; and the clients are told.
pub open spec fn local_community_lines<E>(
    actor: Seq<char>,
    deleted: bool,
    community: CommunityView,
    moderator: PersonView,
    delete: DeleteView,
) -> Seq<(ActionView, ReplyView<E>)> {
    seq![
        (ActionView::Dereference(actor), ReplyView::Person(Ok(moderator))),
        (
            ActionView::NewDelete(
                NewActivityView {
                    actor: moderator,
                    object: DeletableObjectsView::Community(community),
                    to: "https://www.w3.org/ns/activitystreams#Public"@,
                    community: Some(community),
                    summary: None,
                },
            ),
            ReplyView::NewDelete(Ok(delete)),
        ),
        done(
            ActionView::SendActivityInCommunity {
                activity: AnnouncableActivitiesView::Delete(delete),
                actor: moderator,
                community,
                targets: ActivitySendTargetsView::Empty,
                is_mod_action: false,
            },
        ),
        done(ActionView::UpdateCommunity { id: community.id, deleted }),
        told(DeletableObjectsView::Community(community), deleted),
    ]
}

/// The followers of a local community are told of its deletion, the community is marked as deleted
/// or restored, whatever the settings, the clients are told, and it ends well.
pub proof fn a_local_community_is_deleted_or_restored<E>(
    object: Seq<char>,
    actor: Seq<char>,
    deleted: bool,
    do_purge_user_account: Option<bool>,
    config: AutomodConfigView,
    community: CommunityView,
    moderator: PersonView,
    delete: DeleteView,
)
    requires
        community.local,
    ensures
        dialogue(
            receive::<E>(object, actor, deleted, do_purge_user_account, config),
            finding(object, DeletableObjectsView::Community(community)) + local_community_lines(
                actor,
                deleted,
                community,
                moderator,
                delete,
            ),
            Program::Return(Ok(())),
        ),
{
    reveal_with_fuel(dialogue, 7);
    object_is_received::<E>(
        object,
        actor,
        deleted,
        do_purge_user_account,
        config,
        DeletableObjectsView::Community(community),
        local_community_lines(actor, deleted, community, moderator, delete),
        Program::Return(Ok(())),
    );
}

/// To restore a person is to tell the clients and nothing else, and it ends well.
pub proof fn a_person_is_not_touched_by_a_restoring<E>(
    object: Seq<char>,
    actor: Seq<char>,
    do_purge_user_account: Option<bool>,
    config: AutomodConfigView,
    person: PersonView,
)
    ensures
        dialogue(
            receive::<E>(object, actor, false, do_purge_user_account, config),
            finding(object, DeletableObjectsView::Person(person)) + seq![
                told(DeletableObjectsView::Person(person), false),
            ],
            Program::Return(Ok(())),
        ),
{
    reveal_with_fuel(dialogue, 3);
    object_is_received::<E>(
        object,
        actor,
        false,
        do_purge_user_account,
        config,
        DeletableObjectsView::Person(person),
        seq![told(DeletableObjectsView::Person(person), false)],
        Program::Return(Ok(())),
    );
}

/// A person whose account is to be purged is purged, whatever the settings, the clients are told,
/// and it ends well.
pub proof fn a_person_is_purged<E>(
    object: Seq<char>,
    actor: Seq<char>,
    config: AutomodConfigView,
    person: PersonView,
)
    ensures
        dialogue(
            receive::<E>(object, actor, true, Some(true), config),
            finding(object, DeletableObjectsView::Person(person)) + seq![
                done(ActionView::PurgeUserAccount(person.id)),
                told(DeletableObjectsView::Person(person), true),
            ],
            Program::Return(Ok(())),
        ),
{
    reveal_with_fuel(dialogue, 4);
    object_is_received::<E>(
        object,
        actor,
        true,
        Some(true),
        config,
        DeletableObjectsView::Person(person),
        seq![
            done(ActionView::PurgeUserAccount(person.id)),
            told(DeletableObjectsView::Person(person), true),
        ],
        Program::Return(Ok(())),
    );
}

/// A person for whom no age is set is deleted, the clients are told, and it ends well.
pub proof fn a_person_is_deleted<E>(
    object: Seq<char>,
    actor: Seq<char>,
    do_purge_user_account: Option<bool>,
    actor_username: Option<Seq<char>>,
    person: PersonView,
)
    requires
        do_purge_user_account != Some(true),
    ensures
        dialogue(
            receive::<E>(
                object,
                actor,
                true,
                do_purge_user_account,
                AutomodConfigView {
                    ban_deleted_persons_created_within_days: None,
                    actor_username,
                },
            ),
            finding(object, DeletableObjectsView::Person(person)) + seq![
                done(ActionView::DeleteAccount(person.id)),
                told(DeletableObjectsView::Person(person), true),
            ],
            Program::Return(Ok(())),
        ),
{
    reveal_with_fuel(dialogue, 4);
    object_is_received::<E>(
        object,
        actor,
        true,
        do_purge_user_account,
        AutomodConfigView { ban_deleted_persons_created_within_days: None, actor_username },
        DeletableObjectsView::Person(person),
        seq![
            done(ActionView::DeleteAccount(person.id)),
            told(DeletableObjectsView::Person(person), true),
        ],
        Program::Return(Ok(())),
    );
}

/// A person is deleted, and the time read.
pub open spec fn person_removal<E>(person: PersonView, days: u64, now: Timestamp) -> Seq<
    (ActionView, ReplyView<E>),
> {
    seq![
        done(ActionView::DeleteAccount(person.id)),
        (ActionView::ReadClock { days_back: days }, ReplyView::Time(now)),
    ]
}

/// The report that a remote user falls under the rule, and that it was written.
pub open spec fn remote_report<E>(person: PersonView) -> (ActionView, ReplyView<E>) {
    (
        ActionView::Log(
            AutomodReportView::IssuingBan {
                rule: AutomodRule::BanFederatedDeletedUser,
                user: person.actor_id,
            },
        ),
        ReplyView::Logged,
    )
}

/// A person who is not as young as the age that is set is deleted, the clients are told, and it
/// ends well.
pub proof fn an_old_person_is_deleted<E>(
    object: Seq<char>,
    actor: Seq<char>,
    do_purge_user_account: Option<bool>,
    days: u64,
    actor_username: Option<Seq<char>>,
    person: PersonView,
    now: Timestamp,
)
    requires
        do_purge_user_account != Some(true),
        can_be_set_back(now, days),
        !is_younger(person.published, now, days),
    ensures
        dialogue(
            receive::<E>(
                object,
                actor,
                true,
                do_purge_user_account,
                AutomodConfigView {
                    ban_deleted_persons_created_within_days: Some(days),
                    actor_username,
                },
            ),
            finding(object, DeletableObjectsView::Person(person)) + person_removal(
                person,
                days,
                now,
            ).push(told(DeletableObjectsView::Person(person), true)),
            Program::Return(Ok(())),
        ),
{
    reveal_with_fuel(dialogue, 5);
    object_is_received::<E>(
        object,
        actor,
        true,
        do_purge_user_account,
        AutomodConfigView { ban_deleted_persons_created_within_days: Some(days), actor_username },
        DeletableObjectsView::Person(person),
        person_removal(person, days, now).push(told(DeletableObjectsView::Person(person), true)),
        Program::Return(Ok(())),
    );
}

/// A person who is younger than the age that is set is deleted and reported; where no moderator is
/// set, that is reported too; the clients are told; and it ends well.
pub proof fn a_young_person_is_only_reported_without_a_moderator<E>(
    object: Seq<char>,
    actor: Seq<char>,
    do_purge_user_account: Option<bool>,
    days: u64,
    person: PersonView,
    now: Timestamp,
)
    requires
        do_purge_user_account != Some(true),
        can_be_set_back(now, days),
        is_younger(person.published, now, days),
    ensures
        dialogue(
            receive::<E>(
                object,
                actor,
                true,
                do_purge_user_account,
                AutomodConfigView {
                    ban_deleted_persons_created_within_days: Some(days),
                    actor_username: None,
                },
            ),
            finding(object, DeletableObjectsView::Person(person)) + (person_removal(
                person,
                days,
                now,
            ) + seq![
                remote_report(person),
                (
                    ActionView::Log(
                        AutomodReportView::NoAutomodUser {
                            rule: AutomodRule::BanFederatedDeletedUser,
                        },
                    ),
                    ReplyView::Logged,
                ),
                told(DeletableObjectsView::Person(person), true),
            ]),
            Program::Return(Ok(())),
        ),
{
    reveal_with_fuel(dialogue, 7);
    object_is_received::<E>(
        object,
        actor,
        true,
        do_purge_user_account,
        AutomodConfigView {
            ban_deleted_persons_created_within_days: Some(days),
            actor_username: None,
        },
        DeletableObjectsView::Person(person),
        person_removal(person, days, now) + seq![
            remote_report(person),
            (
                ActionView::Log(
                    AutomodReportView::NoAutomodUser {
                        rule: AutomodRule::BanFederatedDeletedUser,
                    },
                ),
                ReplyView::Logged,
            ),
            told(DeletableObjectsView::Person(person), true),
        ],
        Program::Return(Ok(())),
    );
}

/// A person who is younger than the age that is set is deleted and reported; where the moderator
/// that is set does not exist, it ends there with `CouldntFindPerson`.
pub proof fn a_young_person_needs_the_moderator_that_is_set<E>(
    object: Seq<char>,
    actor: Seq<char>,
    do_purge_user_account: Option<bool>,
    days: u64,
    name: Seq<char>,
    person: PersonView,
    now: Timestamp,
)
    requires
        do_purge_user_account != Some(true),
        can_be_set_back(now, days),
        is_younger(person.published, now, days),
    ensures
        dialogue(
            receive::<E>(
                object,
                actor,
                true,
                do_purge_user_account,
                AutomodConfigView {
                    ban_deleted_persons_created_within_days: Some(days),
                    actor_username: Some(name),
                },
            ),
            finding(object, DeletableObjectsView::Person(person)) + (person_removal(
                person,
                days,
                now,
            ) + seq![
                remote_report(person),
                (ActionView::ReadLocalUserByName(name), ReplyView::FoundPerson(Ok(None))),
            ]),
            Program::Return(Err(DeletionError::CouldntFindPerson)),
        ),
{
    reveal_with_fuel(dialogue, 6);
    object_is_received::<E>(
        object,
        actor,
        true,
        do_purge_user_account,
        AutomodConfigView {
            ban_deleted_persons_created_within_days: Some(days),
            actor_username: Some(name),
        },
        DeletableObjectsView::Person(person),
        person_removal(person, days, now) + seq![
            remote_report(person),
            (ActionView::ReadLocalUserByName(name), ReplyView::FoundPerson(Ok(None))),
        ],
        Program::Return(Err(DeletionError::CouldntFindPerson)),
    );
}

/// What is done about one community that a person is banned from. Whether the ban and the end of
/// the subscription could be written makes no difference.
pub open spec fn community_ban_lines<E>(
    community: CommunityId,
    moderator: PersonView,
    banned: PersonView,
    ban: Result<(), E>,
    end: Result<(), E>,
) -> Seq<(ActionView, ReplyView<E>)> {
    seq![
        (
            ActionView::BanFromCommunity(
                CommunityPersonBanForm {
                    community_id: community,
                    person_id: banned.id,
                    expires: None,
                },
            ),
            ReplyView::Done(ban),
        ),
        (
            ActionView::Unfollow(
                CommunityFollowerForm {
                    community_id: community,
                    person_id: banned.id,
                    pending: false,
                },
            ),
            ReplyView::Done(end),
        ),
        done(
            ActionView::CreateModBanFromCommunity(
                ModBanFromCommunityFormView {
                    mod_person_id: moderator.id,
                    other_person_id: banned.id,
                    community_id: community,
                    reason: Some("automod"@),
                    banned: Some(true),
                    expires: None,
                },
            ),
        ),
        done(
            ActionView::SubmitActivity(
                SendActivityDataView::BanFromCommunity {
                    moderator,
                    community_id: community,
                    target: banned,
                    data: BanFromCommunityView {
                        community_id: community,
                        person_id: banned.id,
                        ban: true,
                        reason: Some("automod"@),
                        remove_data: Some(true),
                        expires: None,
                    },
                },
            ),
        ),
    ]
}

/// What is done about each of the communities that a person is banned from, in turn.
pub open spec fn all_community_ban_lines<E>(
    communities: Seq<CommunityId>,
    moderator: PersonView,
    banned: PersonView,
    bans: spec_fn(CommunityId) -> Result<(), E>,
    ends: spec_fn(CommunityId) -> Result<(), E>,
) -> Seq<(ActionView, ReplyView<E>)>
    decreases communities.len(),
{
    if communities.len() == 0 {
        seq![]
    } else {
        let c = communities[0];
        community_ban_lines(c, moderator, banned, bans(c), ends(c)) + all_community_ban_lines(
            communities.skip(1),
            moderator,
            banned,
            bans,
            ends,
        )
    }
}

proof fn communities_ban<E>(
    communities: Seq<CommunityId>,
    moderator: PersonView,
    banned: PersonView,
    bans: spec_fn(CommunityId) -> Result<(), E>,
    ends: spec_fn(CommunityId) -> Result<(), E>,
    next: Program<E>,
)
    ensures
        dialogue(
            ban_from_communities(communities, moderator, banned, next),
            all_community_ban_lines(communities, moderator, banned, bans, ends),
            next,
        ),
    decreases communities.len(),
{
    if communities.len() > 0 {
        let c = communities[0];
        let rest = ban_from_communities(communities.skip(1), moderator, banned, next);
        communities_ban(communities.skip(1), moderator, banned, bans, ends, next);
        let lines = community_ban_lines(c, moderator, banned, bans(c), ends(c));
        assert(dialogue(
            ban_from_communities(communities, moderator, banned, next),
            lines,
            rest,
        )) by {
            reveal_with_fuel(dialogue, 6);
        }
        dialogues_can_be_joined(
            ban_from_communities(communities, moderator, banned, next),
            lines,
            rest,
            all_community_ban_lines(communities.skip(1), moderator, banned, bans, ends),
            next,
        );
    }
}

/// What leads to the bans from communities: the person is reported, the moderator found, the ban
/// written for good in their name, what the person has written removed, the ban logged, and the
/// communities listed.
pub open spec fn person_ban_lines<E>(
    name: Seq<char>,
    person: PersonView,
    moderator: PersonView,
    banned: PersonView,
    communities: Seq<CommunityId>,
) -> Seq<(ActionView, ReplyView<E>)> {
    seq![
        remote_report(person),
        (ActionView::ReadLocalUserByName(name), ReplyView::FoundPerson(Ok(Some(moderator)))),
        (
            ActionView::UpdatePerson(
                person.id,
                PersonUpdateForm { banned: Some(true), ban_expires: Some(None) },
            ),
            ReplyView::Person(Ok(banned)),
        ),
        done(ActionView::RemoveUserData(banned.id)),
        done(
            ActionView::CreateModBan(
                ModBanFormView {
                    mod_person_id: moderator.id,
                    other_person_id: banned.id,
                    reason: Some("automod"@),
                    banned: Some(true),
                    expires: None,
                },
            ),
        ),
        (
            ActionView::ListLocalCommunityIds(banned.id),
            ReplyView::CommunityIds(Ok(communities)),
        ),
    ]
}

/// A person who is younger than the age that is set is deleted and reported; where the moderator
/// that is set exists, the person is banned from the instance and from every one of the local
/// communities that they take part in; the clients are told; and it ends well.
pub proof fn a_young_person_is_banned<E>(
    object: Seq<char>,
    actor: Seq<char>,
    do_purge_user_account: Option<bool>,
    days: u64,
    name: Seq<char>,
    person: PersonView,
    now: Timestamp,
    moderator: PersonView,
    banned: PersonView,
    communities: Seq<CommunityId>,
    bans: spec_fn(CommunityId) -> Result<(), E>,
    ends: spec_fn(CommunityId) -> Result<(), E>,
)
    requires
        do_purge_user_account != Some(true),
        can_be_set_back(now, days),
        is_younger(person.published, now, days),
    ensures
        dialogue(
            receive::<E>(
                object,
                actor,
                true,
                do_purge_user_account,
                AutomodConfigView {
                    ban_deleted_persons_created_within_days: Some(days),
                    actor_username: Some(name),
                },
            ),
            finding(object, DeletableObjectsView::Person(person)) + ((person_removal(
                person,
                days,
                now,
            ) + person_ban_lines(name, person, moderator, banned, communities)) + (
            all_community_ban_lines(communities, moderator, banned, bans, ends) + seq![
                told(DeletableObjectsView::Person(person), true),
            ])),
            Program::Return(Ok(())),
        ),
{
    let config = AutomodConfigView {
        ban_deleted_persons_created_within_days: Some(days),
        actor_username: Some(name),
    };
    let o = DeletableObjectsView::Person(person);
    let end = tell_clients::<E>(o, true);
    let loop_ = ban_from_communities(communities, moderator, banned, end);
    let p = receive_object::<E>(actor, true, do_purge_user_account, config, o);
    let first = person_removal::<E>(person, days, now) + person_ban_lines(
        name,
        person,
        moderator,
        banned,
        communities,
    );
    let middle = all_community_ban_lines(communities, moderator, banned, bans, ends);
    let last = seq![told::<E>(o, true)];
    assert(dialogue(p, first, loop_)) by {
        reveal_with_fuel(dialogue, 10);
    }
    communities_ban(communities, moderator, banned, bans, ends, end);
    assert(dialogue(end, last, Program::<E>::Return(Ok(())))) by {
        reveal_with_fuel(dialogue, 3);
    }
    dialogues_can_be_joined(loop_, middle, end, last, Program::<E>::Return(Ok(())));
    dialogues_can_be_joined(p, first, loop_, middle + last, Program::<E>::Return(Ok(())));
    object_is_received::<E>(
        object,
        actor,
        true,
        do_purge_user_account,
        config,
        o,
        first + (middle + last),
        Program::Return(Ok(())),
    );
}

proof fn community_ban_errors<E>(
    communities: Seq<CommunityId>,
    moderator: PersonView,
    person: PersonView,
    next: Program<E>,
    c: spec_fn(ActionView, ReplyView<E>, DeletionError<E>) -> bool,
)
    requires
        forall|a: ActionView, r: ReplyView<E>, e: DeletionError<E>|
            later_cause(a, r, e) ==> #[trigger] c(a, r, e),
        fails_for_causes(next, c),
        next is Perform,
    ensures
        fails_for_causes(ban_from_communities(communities, moderator, person, next), c),
        ban_from_communities(communities, moderator, person, next) is Perform,
    decreases communities.len(),
{
    reveal_with_fuel(fails_for_causes, 2);
    if communities.len() > 0 {
        let rest = ban_from_communities::<E>(communities.skip(1), moderator, person, next);
        community_ban_errors(communities.skip(1), moderator, person, next, c);
        let news = command(community_ban_news(communities[0], moderator, person), rest);
        assert(fails_for_causes(news, c));
        let entry = command(community_ban_entry(communities[0], moderator.id, person.id), news);
        assert(fails_for_causes(entry, c));
        let leave = attempt(unfollow(communities[0], person.id), entry);
        assert(fails_for_causes(leave, c));
    }
}

proof fn person_deletion_errors<E>(
    config: AutomodConfigView,
    person: PersonView,
    next: Program<E>,
    c: spec_fn(ActionView, ReplyView<E>, DeletionError<E>) -> bool,
)
    requires
        forall|a: ActionView, r: ReplyView<E>, e: DeletionError<E>|
            later_cause(a, r, e) ==> #[trigger] c(a, r, e),
        fails_for_causes(next, c),
        next is Perform,
    ensures
        fails_for_causes(delete_person(config, person, next), c),
{
    reveal_with_fuel(fails_for_causes, 2);
    assert forall|moderator: PersonView, banned: PersonView| fails_for_causes(
        #[trigger] log_ban::<E>(moderator, banned, next),
        c,
    ) by {
        assert forall|ids: Seq<CommunityId>|
            fails_for_causes(
                #[trigger] ban_from_communities::<E>(ids, moderator, banned, next),
                c,
            ) && ban_from_communities::<E>(ids, moderator, banned, next) is Perform by {
            community_ban_errors::<E>(ids, moderator, banned, next, c);
        }
        assert(fails_for_causes(ban_from_all::<E>(moderator, banned, next), c));
    }
    assert forall|moderator: PersonView| fails_for_causes(
        #[trigger] ban_person::<E>(moderator, person.id, next),
        c,
    ) by {
        assert forall|banned: PersonView| fails_for_causes(
            #[trigger] command::<E>(
                ActionView::RemoveUserData(banned.id),
                log_ban(moderator, banned, next),
            ),
            c,
        ) by {
            assert(fails_for_causes(log_ban::<E>(moderator, banned, next), c));
        }
    }
    let name = config.actor_username;
    assert(fails_for_causes(ban_by_automod::<E>(name, person.id, next), c));
    assert(fails_for_causes(issue_ban::<E>(name, person.id, person.actor_id, next), c));
    if config.ban_deleted_persons_created_within_days is Some {
        let days = config.ban_deleted_persons_created_within_days->0;
        assert(fails_for_causes(ban_if_recent::<E>(days, name, person, next), c));
    }
    assert(fails_for_causes(moderate::<E>(config, person, next), c));
}

proof fn object_deletion_errors<E>(
    actor: Seq<char>,
    deleted: bool,
    do_purge_user_account: Option<bool>,
    config: AutomodConfigView,
    object: DeletableObjectsView,
    c: spec_fn(ActionView, ReplyView<E>, DeletionError<E>) -> bool,
)
    requires
        forall|a: ActionView, r: ReplyView<E>, e: DeletionError<E>|
            later_cause(a, r, e) ==> #[trigger] c(a, r, e),
    ensures
        fails_for_causes(
            receive_object::<E>(actor, deleted, do_purge_user_account, config, object),
            c,
        ),
        receive_object::<E>(actor, deleted, do_purge_user_account, config, object) is Perform,
{
    reveal_with_fuel(fails_for_causes, 2);
    let next = tell_clients::<E>(object, deleted);
    assert(fails_for_causes(success::<E>(), c));
    assert(fails_for_causes(next, c));
    match object {
        DeletableObjectsView::Community(q) => {
            let write = write_community::<E>(q.id, deleted, next);
            assert(fails_for_causes(write, c));
            assert forall|m: PersonView| fails_for_causes(
                #[trigger] send_in_community(m, q, object, None, true, write),
                c,
            ) by {
                assert forall|d: DeleteView| fails_for_causes(
                    #[trigger] announce(AnnouncableActivitiesView::Delete(d), m, q, false, write),
                    c,
                ) by {}
            }
            assert(fails_for_causes(tell_followers::<E>(actor, q, deleted, next), c));
        },
        DeletableObjectsView::Person(q) => {
            person_deletion_errors::<E>(config, q, next, c);
        },
        _ => {},
    }
}

/// An incoming deletion that is over has ended well, whatever the settings and the object, unless
/// its last action failed, or the moderator that was looked for does not exist, or there is no
/// object; it ends with the error that this is, and with `NotFound` exactly where there is no
/// object of any kind.
pub proof fn a_reception_ends_well_without_a_cause<E>(
    object: Seq<char>,
    actor: Seq<char>,
    deleted: bool,
    do_purge_user_account: Option<bool>,
    config: AutomodConfigView,
    replies: Seq<ReplyView<E>>,
)
    requires
        conforms(receive::<E>(object, actor, deleted, do_purge_user_account, config), replies),
    ensures
        ({
            let p = receive::<E>(object, actor, deleted, do_purge_user_account, config);
            &&& remainder(p, replies) matches Program::Return(Err(error)) ==> {
                &&& replies.len() > 0
                &&& cause(actions(p, replies)[replies.len() - 1], replies.last(), error)
            }
            &&& remainder(p, replies) == Program::<E>::Return(Err(DeletionError::NotFound))
                <==> replies == seq![
                ReplyView::<E>::FoundCommunity(Ok(None)),
                ReplyView::FoundPerson(Ok(None)),
                ReplyView::FoundPost(Ok(None)),
                ReplyView::FoundComment(Ok(None)),
                ReplyView::FoundPrivateMessage(Ok(None)),
            ]
        }),
{
    let p = receive::<E>(object, actor, deleted, do_purge_user_account, config);
    let next = receive_step::<E>(actor, deleted, do_purge_user_account, config);
    let later = |a: ActionView, r: ReplyView<E>, e: DeletionError<E>| later_cause(a, r, e);
    let all = |a: ActionView, r: ReplyView<E>, e: DeletionError<E>| cause(a, r, e);
    assert forall|o: DeletableObjectsView|
        fails_for_causes(#[trigger] next(o), later) && next(o) is Perform by {
        object_deletion_errors(actor, deleted, do_purge_user_account, config, o, later);
    }
    not_found_means_that_nothing_was_found(object, next, later, replies);
    assert forall|o: DeletableObjectsView|
        fails_for_causes(#[trigger] next(o), all) && next(o) is Perform by {
        object_deletion_errors(actor, deleted, do_purge_user_account, config, o, all);
    }
    a_search_fails_for_causes(object, next, all);
    if remainder(p, replies) is Return && remainder(p, replies)->Return_0 is Err {
        errors_have_causes(p, all, replies, remainder(p, replies)->Return_0->Err_0);
    }
}

} // verus!
