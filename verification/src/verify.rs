//! Whether an incoming deletion may be accepted.

use vstd::pervasive::unreached;
use vstd::prelude::*;

use crate::actions::{Action, ActionView, DeletionError, Reply};
use crate::activities::{Delete, DeleteView};
use crate::lookup::{lookup_object, Lookup, LookupProgress};
use crate::objects::{Community, CommunityView, DeletableObjects, DeletableObjectsView};
use crate::program::{command, success, with_community, Plan, Program, Progress, Workflow};
use crate::urls::{
    clone_urls, domain_check, url_check, url_texts, verify_domains_match, verify_urls_match, Url,
};

verus! {

/// Checks that the actor moderates the community.
pub open spec fn check_moderator<E>(actor: Seq<char>, community: CommunityView) -> Program<E> {
    command(ActionView::VerifyModAction { actor, community }, success())
}

/// Checks that the actor may delete the post or comment with the URL `object_id`: they may act
/// in the community; and they moderate it, if they act as a moderator, or else come from the
/// domain of the object.
pub open spec fn check_post_or_comment<E>(
    actor: Seq<char>,
    object_id: Seq<char>,
    community: CommunityView,
    is_mod_action: bool,
) -> Program<E> {
    command(
        ActionView::VerifyPersonInCommunity { actor, community },
        if is_mod_action {
            check_moderator(actor, community)
        } else {
            // The domain of a post is also that of its creator.
            Program::Return(domain_check(actor, object_id))
        },
    )
}

/// The check of the deletion of a post or comment.
pub struct PostOrCommentCheck {
    step: PostOrCommentStep,
}

#[allow(inconsistent_fields)]
enum PostOrCommentStep {
    Member { actor: Url, object_id: Url, community: Community, is_mod_action: bool },
    Moderator { actor: Ghost<Seq<char>>, community: Ghost<CommunityView> },
}

impl<E> Plan<E> for PostOrCommentCheck {
    closed spec fn program(self) -> Program<E> {
        match self.step {
            PostOrCommentStep::Member { actor, object_id, community, is_mod_action } =>
                check_post_or_comment(actor@, object_id@, community@, is_mod_action),
            PostOrCommentStep::Moderator { actor, community } => check_moderator(
                actor@,
                community@,
            ),
        }
    }
}

impl<E> Workflow<E> for PostOrCommentCheck {
    fn resume(self, reply: Reply<E>) -> (next: Progress<Self, E>) {
        match reply {
            Reply::Done(Ok(_)) => {},
            Reply::Done(Err(e)) => {
                return Progress::Complete(Err(DeletionError::Service(e)));
            },
            _ => unreached(),
        }
        match self.step {
            PostOrCommentStep::Member { actor, object_id, community, is_mod_action } => {
                if is_mod_action {
                    let step = PostOrCommentStep::Moderator {
                        actor: Ghost(actor@),
                        community: Ghost(community@),
                    };
                    Progress::Await(
                        PostOrCommentCheck { step },
                        Action::VerifyModAction { actor, community },
                    )
                } else {
                    Progress::Complete(verify_domains_match(&actor, &object_id))
                }
            },
            PostOrCommentStep::Moderator { .. } => Progress::Complete(Ok(())),
        }
    }
}

/// Starts to check that the actor may delete the post or comment with the URL `object_id`.
pub fn verify_delete_post_or_comment<E>(
    actor: &Url,
    object_id: &Url,
    community: &Community,
    is_mod_action: bool,
) -> (res: Progress<PostOrCommentCheck, E>)
    ensures
        res.well_formed(),
        res.program() == check_post_or_comment::<E>(
            actor@,
            object_id@,
            community@,
            is_mod_action,
        ),
{
    let step = PostOrCommentStep::Member {
        actor: actor.clone(),
        object_id: object_id.clone(),
        community: community.clone(),
        is_mod_action,
    };
    Progress::Await(
        PostOrCommentCheck { step },
        Action::VerifyPersonInCommunity { actor: actor.clone(), community: community.clone() },
    )
}

/// Checks that an activity is addressed to the public.
pub open spec fn is_public(activity: DeleteView) -> ActionView {
    ActionView::VerifyIsPublic { to: activity.to, cc: seq![] }
}

/// Checks the deletion of a community, which only a moderator may delete. Membership can be
/// checked of a local community only: a remote one that is deleted could not be fetched.
pub open spec fn check_community<E>(actor: Seq<char>, community: CommunityView) -> Program<E> {
    if community.local {
        command(
            ActionView::VerifyPersonInCommunity { actor, community },
            check_moderator(actor, community),
        )
    } else {
        check_moderator(actor, community)
    }
}

/// Checks the deletion of the person with the URL `person`, which is theirs alone to make.
pub open spec fn check_person<E>(
    actor: Seq<char>,
    person: Seq<char>,
    object: Seq<char>,
) -> Program<E> {
    command(ActionView::VerifyPerson(actor), Program::Return(url_check(person, object)))
}

/// Checks the deletion of the post or comment with the URL `object_id`, in the community that
/// the activity belongs to.
pub open spec fn check_content<E>(
    activity: DeleteView,
    object_id: Seq<char>,
    is_mod_action: bool,
) -> Program<E> {
    with_community(
        ActionView::ReadActivityCommunity(activity),
        |community: CommunityView|
            check_post_or_comment(activity.actor, object_id, community, is_mod_action),
    )
}

/// Checks the deletion of a private message, which has to come from the domain of the message.
pub open spec fn check_private_message<E>(actor: Seq<char>, object: Seq<char>) -> Program<E> {
    command(ActionView::VerifyPerson(actor), Program::Return(domain_check(actor, object)))
}

/// Checks that an activity may delete the object that it is about.
pub open spec fn check_object<E>(
    activity: DeleteView,
    is_mod_action: bool,
    object: DeletableObjectsView,
) -> Program<E> {
    match object {
        DeletableObjectsView::Community(c) => command(
            is_public(activity),
            check_community(activity.actor, c),
        ),
        DeletableObjectsView::Person(p) => command(
            is_public(activity),
            check_person(activity.actor, p.actor_id, activity.object),
        ),
        DeletableObjectsView::Post(p) => command(
            is_public(activity),
            check_content(activity, p.ap_id, is_mod_action),
        ),
        DeletableObjectsView::Comment(c) => command(
            is_public(activity),
            check_content(activity, c.ap_id, is_mod_action),
        ),
        DeletableObjectsView::PrivateMessage(_) => check_private_message(
            activity.actor,
            activity.object,
        ),
    }
}

/// How the check of an activity goes on once the object that it is about is known.
pub open spec fn checks<E>(activity: DeleteView, is_mod_action: bool) -> spec_fn(
    DeletableObjectsView,
) -> Program<E> {
    |object: DeletableObjectsView| check_object(activity, is_mod_action, object)
}

/// Looks up the object that an activity is about, and checks that the activity may delete it.
pub open spec fn delete_check<E>(activity: DeleteView, is_mod_action: bool) -> Program<E> {
    lookup_object(activity.object, checks(activity, is_mod_action))
}

/// The check of an incoming deletion.
pub struct DeleteCheck {
    step: CheckStep,
}

#[allow(inconsistent_fields)]
enum CheckStep {
    Lookup { lookup: Lookup, activity: Delete, is_mod_action: bool },
    CommunityPublic { to: Ghost<Seq<Seq<char>>>, actor: Url, community: Community },
    CommunityMember { actor: Url, community: Community },
    CommunityModerator { actor: Ghost<Seq<char>>, community: Ghost<CommunityView> },
    PersonPublic { to: Ghost<Seq<Seq<char>>>, actor: Url, person: Url, object: Url },
    Person { actor: Ghost<Seq<char>>, person: Url, object: Url },
    ContentPublic { activity: Delete, object_id: Url, is_mod_action: bool },
    ContentCommunity {
        activity: Ghost<DeleteView>,
        actor: Url,
        object_id: Url,
        is_mod_action: bool,
    },
    Content(PostOrCommentCheck),
    PrivateMessage { actor: Url, object: Url },
}

impl<E> Plan<E> for DeleteCheck {
    closed spec fn program(self) -> Program<E> {
        match self.step {
            CheckStep::Lookup { lookup, activity, is_mod_action } => lookup.program_with(
                checks(activity@, is_mod_action),
            ),
            CheckStep::CommunityPublic { to, actor, community } => command(
                ActionView::VerifyIsPublic { to: to@, cc: seq![] },
                check_community(actor@, community@),
            ),
            CheckStep::CommunityMember { actor, community } => command(
                ActionView::VerifyPersonInCommunity { actor: actor@, community: community@ },
                check_moderator(actor@, community@),
            ),
            CheckStep::CommunityModerator { actor, community } => check_moderator(
                actor@,
                community@,
            ),
            CheckStep::PersonPublic { to, actor, person, object } => command(
                ActionView::VerifyIsPublic { to: to@, cc: seq![] },
                check_person(actor@, person@, object@),
            ),
            CheckStep::Person { actor, person, object } => check_person(actor@, person@, object@),
            CheckStep::ContentPublic { activity, object_id, is_mod_action } => command(
                is_public(activity@),
                check_content(activity@, object_id@, is_mod_action),
            ),
            CheckStep::ContentCommunity { activity, actor, object_id, is_mod_action } =>
                check_content(
                    DeleteView { actor: actor@, ..activity@ },
                    object_id@,
                    is_mod_action,
                ),
            CheckStep::Content(check) => check.program(),
            CheckStep::PrivateMessage { actor, object } => check_private_message(actor@, object@),
        }
    }
}

/// No URL at all.
fn no_urls() -> (res: Vec<Url>)
    ensures
        url_texts(res@) == Seq::<Seq<char>>::empty(),
{
    let res: Vec<Url> = Vec::new();
    assert(url_texts(res@) =~= Seq::empty());
    res
}

/// The first check of the deletion of the object that was found.
fn start_check<E>(activity: Delete, is_mod_action: bool, object: DeletableObjects) -> (res:
    Progress<DeleteCheck, E>)
    ensures
        res.well_formed(),
        res.program() == check_object::<E>(activity@, is_mod_action, object@),
{
    match object {
        DeletableObjects::Community(community) => {
            let step = CheckStep::CommunityPublic {
                to: Ghost(url_texts(activity.to@)),
                actor: activity.actor,
                community,
            };
            Progress::Await(
                DeleteCheck { step },
                Action::VerifyIsPublic { to: activity.to, cc: no_urls() },
            )
        },
        DeletableObjects::Person(person) => {
            let step = CheckStep::PersonPublic {
                to: Ghost(url_texts(activity.to@)),
                actor: activity.actor,
                person: person.actor_id,
                object: activity.object,
            };
            Progress::Await(
                DeleteCheck { step },
                Action::VerifyIsPublic { to: activity.to, cc: no_urls() },
            )
        },
        DeletableObjects::Post(post) => {
            let action = Action::VerifyIsPublic { to: clone_urls(&activity.to), cc: no_urls() };
            let step = CheckStep::ContentPublic { activity, object_id: post.ap_id, is_mod_action };
            Progress::Await(DeleteCheck { step }, action)
        },
        DeletableObjects::Comment(comment) => {
            let action = Action::VerifyIsPublic { to: clone_urls(&activity.to), cc: no_urls() };
            let step = CheckStep::ContentPublic {
                activity,
                object_id: comment.ap_id,
                is_mod_action,
            };
            Progress::Await(DeleteCheck { step }, action)
        },
        DeletableObjects::PrivateMessage(_) => {
            let action = Action::VerifyPerson(activity.actor.clone());
            let step = CheckStep::PrivateMessage {
                actor: activity.actor,
                object: activity.object,
            };
            Progress::Await(DeleteCheck { step }, action)
        },
    }
}

/// Goes on with the moderator check of a community.
fn start_moderator_check<E>(actor: Url, community: Community) -> (res: Progress<DeleteCheck, E>)
    ensures
        res.well_formed(),
        res.program() == check_moderator::<E>(actor@, community@),
{
    let step = CheckStep::CommunityModerator {
        actor: Ghost(actor@),
        community: Ghost(community@),
    };
    Progress::Await(DeleteCheck { step }, Action::VerifyModAction { actor, community })
}

/// The check of a post or comment as the last part of the check of an activity.
fn wrap_content_check<E>(progress: Progress<PostOrCommentCheck, E>) -> (res: Progress<
    DeleteCheck,
    E,
>)
    requires
        progress.well_formed(),
    ensures
        res.well_formed(),
        res.program() == progress.program(),
{
    match progress {
        Progress::Await(check, action) => Progress::Await(
            DeleteCheck { step: CheckStep::Content(check) },
            action,
        ),
        Progress::Complete(r) => Progress::Complete(r),
    }
}

impl<E> Workflow<E> for DeleteCheck {
    fn resume(self, reply: Reply<E>) -> (next: Progress<Self, E>) {
        match self.step {
            CheckStep::Lookup { lookup, activity, is_mod_action } => match lookup.resume(reply) {
                LookupProgress::Await(lookup, action) => Progress::Await(
                    DeleteCheck { step: CheckStep::Lookup { lookup, activity, is_mod_action } },
                    action,
                ),
                LookupProgress::Complete(Ok(object)) => start_check(
                    activity,
                    is_mod_action,
                    object,
                ),
                LookupProgress::Complete(Err(e)) => Progress::Complete(Err(e)),
            },
            CheckStep::ContentCommunity { actor, object_id, is_mod_action, .. } => match reply {
                Reply::Community(Ok(community)) => {
                    wrap_content_check(
                        verify_delete_post_or_comment(
                            &actor,
                            &object_id,
                            &community,
                            is_mod_action,
                        ),
                    )
                },
                Reply::Community(Err(e)) => Progress::Complete(Err(DeletionError::Service(e))),
                _ => unreached(),
            },
            CheckStep::Content(check) => wrap_content_check(check.resume(reply)),
            CheckStep::CommunityPublic { actor, community, .. } => match reply {
                Reply::Done(Ok(_)) => {
                    if community.local {
                        let action = Action::VerifyPersonInCommunity {
                            actor: actor.clone(),
                            community: community.clone(),
                        };
                        Progress::Await(
                            DeleteCheck { step: CheckStep::CommunityMember { actor, community } },
                            action,
                        )
                    } else {
                        start_moderator_check(actor, community)
                    }
                },
                Reply::Done(Err(e)) => Progress::Complete(Err(DeletionError::Service(e))),
                _ => unreached(),
            },
            CheckStep::CommunityMember { actor, community } => match reply {
                Reply::Done(Ok(_)) => start_moderator_check(actor, community),
                Reply::Done(Err(e)) => Progress::Complete(Err(DeletionError::Service(e))),
                _ => unreached(),
            },
            CheckStep::CommunityModerator { .. } => match reply {
                Reply::Done(Ok(_)) => Progress::Complete(Ok(())),
                Reply::Done(Err(e)) => Progress::Complete(Err(DeletionError::Service(e))),
                _ => unreached(),
            },
            CheckStep::PersonPublic { actor, person, object, .. } => match reply {
                Reply::Done(Ok(_)) => {
                    let step = CheckStep::Person { actor: Ghost(actor@), person, object };
                    Progress::Await(DeleteCheck { step }, Action::VerifyPerson(actor))
                },
                Reply::Done(Err(e)) => Progress::Complete(Err(DeletionError::Service(e))),
                _ => unreached(),
            },
            CheckStep::Person { person, object, .. } => match reply {
                Reply::Done(Ok(_)) => Progress::Complete(verify_urls_match(&person, &object)),
                Reply::Done(Err(e)) => Progress::Complete(Err(DeletionError::Service(e))),
                _ => unreached(),
            },
            CheckStep::ContentPublic { activity, object_id, is_mod_action } => match reply {
                Reply::Done(Ok(_)) => {
                    let step = CheckStep::ContentCommunity {
                        activity: Ghost(activity@),
                        actor: activity.actor.clone(),
                        object_id,
                        is_mod_action,
                    };
                    Progress::Await(DeleteCheck { step }, Action::ReadActivityCommunity(activity))
                },
                Reply::Done(Err(e)) => Progress::Complete(Err(DeletionError::Service(e))),
                _ => unreached(),
            },
            CheckStep::PrivateMessage { actor, object } => match reply {
                Reply::Done(Ok(_)) => Progress::Complete(verify_domains_match(&actor, &object)),
                Reply::Done(Err(e)) => Progress::Complete(Err(DeletionError::Service(e))),
                _ => unreached(),
            },
        }
    }
}

/// Starts to check that an incoming deletion may be accepted.
pub fn verify_delete_activity<E>(activity: &Delete, is_mod_action: bool) -> (res: Progress<
    DeleteCheck,
    E,
>)
    ensures
        res.well_formed(),
        res.program() == delete_check::<E>(activity@, is_mod_action),
{
    let (lookup, action) = DeletableObjects::read_from_db(&activity.object);
    let step = CheckStep::Lookup { lookup, activity: activity.clone(), is_mod_action };
    Progress::Await(DeleteCheck { step }, action)
}

} // verus!
