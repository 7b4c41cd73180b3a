//! Checking incoming deletions.

use deletion::actions::{Action, DeletionError, ObjectKind, Reply};
use deletion::activities::Delete;
use deletion::objects::{
    Comment, CommentId, Community, CommunityId, DeletableObjects, Person, PersonId, Post, PostId,
    PrivateMessage, PrivateMessageId, Timestamp,
};
use deletion::program::{Progress, Workflow};
use deletion::verify::{verify_delete_activity, verify_delete_post_or_comment, DeleteCheck};
use deletion::urls::Url;

const OBJECT: &str = "https://away.example/o/1";
const ACTOR: &str = "https://away.example/u/bob";
const STRANGER: &str = "https://other.example/u/eve";
const PUBLIC: &str = "https://www.w3.org/ns/activitystreams#Public";

type Outcome = Option<Result<(), DeletionError<String>>>;

/// Answers the actions with the replies in turn. Returns the actions, and the result if there is
/// one.
fn run<S: Workflow<String>>(
    start: Progress<S, String>,
    replies: Vec<Reply<String>>,
) -> (Vec<String>, Outcome) {
    let mut actions = vec![];
    let mut progress = start;
    for reply in replies {
        match progress {
            Progress::Await(state, action) => {
                assert!(action.admits(&reply), "{:?} for {:?}", reply, action);
                actions.push(format!("{:?}", action));
                progress = state.resume(reply);
            }
            Progress::Complete(_) => panic!("one reply too many: {:?}", reply),
        }
    }
    match progress {
        Progress::Await(_, action) => {
            actions.push(format!("{:?}", action));
            (actions, None)
        }
        Progress::Complete(result) => (actions, Some(result)),
    }
}

fn shown(actions: Vec<Action>) -> Vec<String> {
    actions.iter().map(|a| format!("{:?}", a)).collect()
}

fn url(text: &str) -> Url {
    Url::parse(text.to_string()).unwrap()
}

fn done() -> Reply<String> {
    Reply::Done(Ok(()))
}

fn failed() -> Reply<String> {
    Reply::Done(Err("down".to_string()))
}

fn down() -> Outcome {
    Some(Err(DeletionError::Service("down".to_string())))
}

fn person(id: i32, name: &str, shared_inbox: Option<Url>) -> Person {
    Person {
        id: PersonId(id),
        name: name.to_string(),
        actor_id: url(&format!("https://away.example/u/{}", name)),
        published: Timestamp { secs: 1_699_999_000, nanos: 0 },
        inbox: url(&format!("https://away.example/u/{}/inbox", name)),
        shared_inbox,
    }
}

fn community(local: bool) -> Community {
    Community { id: CommunityId(21), actor_id: url("https://home.example/c/main"), local }
}

fn ask(kind: ObjectKind, ap_id: &str) -> Action {
    Action::ReadFromId { kind, ap_id: url(ap_id) }
}

/// The searches up to the one among the objects of the last kind.
fn searches(ap_id: &str, kinds: usize) -> Vec<Action> {
    let order = [
        ObjectKind::Community,
        ObjectKind::Person,
        ObjectKind::Post,
        ObjectKind::Comment,
        ObjectKind::PrivateMessage,
    ];
    order[..kinds].iter().map(|k| ask(*k, ap_id)).collect()
}

/// The replies to a search that finds the object.
fn found(object: DeletableObjects) -> Vec<Reply<String>> {
    let mut replies = vec![];
    match object {
        DeletableObjects::Community(c) => replies.push(Reply::FoundCommunity(Ok(Some(c)))),
        DeletableObjects::Person(p) => {
            replies.push(Reply::FoundCommunity(Ok(None)));
            replies.push(Reply::FoundPerson(Ok(Some(p))));
        }
        DeletableObjects::Post(p) => {
            replies.push(Reply::FoundCommunity(Ok(None)));
            replies.push(Reply::FoundPerson(Ok(None)));
            replies.push(Reply::FoundPost(Ok(Some(p))));
        }
        DeletableObjects::Comment(c) => {
            replies.push(Reply::FoundCommunity(Ok(None)));
            replies.push(Reply::FoundPerson(Ok(None)));
            replies.push(Reply::FoundPost(Ok(None)));
            replies.push(Reply::FoundComment(Ok(Some(c))));
        }
        DeletableObjects::PrivateMessage(p) => {
            replies.push(Reply::FoundCommunity(Ok(None)));
            replies.push(Reply::FoundPerson(Ok(None)));
            replies.push(Reply::FoundPost(Ok(None)));
            replies.push(Reply::FoundComment(Ok(None)));
            replies.push(Reply::FoundPrivateMessage(Ok(Some(p))));
        }
    }
    replies
}

fn nothing_found() -> Vec<Reply<String>> {
    vec![
        Reply::FoundCommunity(Ok(None)),
        Reply::FoundPerson(Ok(None)),
        Reply::FoundPost(Ok(None)),
        Reply::FoundComment(Ok(None)),
        Reply::FoundPrivateMessage(Ok(None)),
    ]
}

fn joined<T>(mut first: Vec<T>, second: Vec<T>) -> Vec<T> {
    first.extend(second);
    first
}

fn activity(actor: &str) -> Delete {
    Delete {
        id: url("https://away.example/activities/delete/1"),
        actor: url(actor),
        to: vec![url(PUBLIC), url("https://away.example/c/main")],
        object: url(OBJECT),
        summary: None,
        remove_data: None,
    }
}

fn start(actor: &str, is_mod_action: bool) -> Progress<DeleteCheck, String> {
    verify_delete_activity(&activity(actor), is_mod_action)
}

fn post(ap_id: &str) -> DeletableObjects {
    DeletableObjects::Post(Post { id: PostId(31), ap_id: url(ap_id), deleted: false })
}

fn comment(ap_id: &str) -> DeletableObjects {
    DeletableObjects::Comment(Comment { id: CommentId(41), ap_id: url(ap_id), deleted: false })
}

fn private_message() -> DeletableObjects {
    DeletableObjects::PrivateMessage(PrivateMessage {
        id: PrivateMessageId(51),
        ap_id: url(OBJECT),
        recipient_id: PersonId(5),
    })
}

fn public(actor: &str) -> Action {
    Action::VerifyIsPublic { to: activity(actor).to, cc: vec![] }
}

fn member(actor: &str, local: bool) -> Action {
    Action::VerifyPersonInCommunity { actor: url(actor), community: community(local) }
}

fn moderator(actor: &str, local: bool) -> Action {
    Action::VerifyModAction { actor: url(actor), community: community(local) }
}

#[test]
fn deletion_of_nothing_is_refused() {
    let (actions, result) = run(start(ACTOR, false), nothing_found());
    assert_eq!(actions, shown(searches(OBJECT, 5)));
    assert_eq!(result, Some(Err(DeletionError::NotFound)));
}

#[test]
fn local_community_takes_a_member_who_moderates() {
    // Whether the activity says that it is the act of a moderator makes no difference.
    for is_mod_action in [true, false] {
        let replies = joined(
            found(DeletableObjects::Community(community(true))),
            vec![done(), done(), done()],
        );
        let (actions, result) = run(start(ACTOR, is_mod_action), replies);
        let expected = vec![public(ACTOR), member(ACTOR, true), moderator(ACTOR, true)];
        assert_eq!(actions, shown(joined(searches(OBJECT, 1), expected)));
        assert_eq!(result, Some(Ok(())));
    }
}

#[test]
fn remote_community_takes_a_moderator() {
    for is_mod_action in [true, false] {
        let replies =
            joined(found(DeletableObjects::Community(community(false))), vec![done(), done()]);
        let (actions, result) = run(start(ACTOR, is_mod_action), replies);
        let expected = vec![public(ACTOR), moderator(ACTOR, false)];
        assert_eq!(actions, shown(joined(searches(OBJECT, 1), expected)));
        assert_eq!(result, Some(Ok(())));
    }
}

#[test]
fn person_with_the_same_url_is_accepted() {
    let mut bob = person(7, "bob", None);
    bob.actor_id = url("https://AWAY.example/o/1");
    let replies = joined(found(DeletableObjects::Person(bob)), vec![done(), done()]);
    let (actions, result) = run(start(ACTOR, false), replies);
    let expected = vec![public(ACTOR), Action::VerifyPerson(url(ACTOR))];
    assert_eq!(actions, shown(joined(searches(OBJECT, 2), expected)));
    assert_eq!(result, Some(Ok(())));
}

#[test]
fn person_with_another_url_is_refused() {
    let bob = person(7, "bob", None);
    let replies = joined(found(DeletableObjects::Person(bob)), vec![done(), done()]);
    assert_eq!(run(start(ACTOR, true), replies).1, Some(Err(DeletionError::UrlsDoNotMatch)));
}

#[test]
fn content_goes_from_its_own_domain() {
    for (object, kinds) in [(post(OBJECT), 3), (comment(OBJECT), 4)] {
        let replies = joined(
            found(object),
            vec![done(), Reply::Community(Ok(community(true))), done()],
        );
        let (actions, result) = run(start(ACTOR, false), replies);
        let expected = vec![
            public(ACTOR),
            Action::ReadActivityCommunity(activity(ACTOR)),
            member(ACTOR, true),
        ];
        assert_eq!(actions, shown(joined(searches(OBJECT, kinds), expected)));
        assert_eq!(result, Some(Ok(())));
    }
}

#[test]
fn content_does_not_go_from_another_domain() {
    for object in [post(OBJECT), comment(OBJECT)] {
        let replies = joined(
            found(object),
            vec![done(), Reply::Community(Ok(community(true))), done()],
        );
        let (_, result) = run(start(STRANGER, false), replies);
        assert_eq!(result, Some(Err(DeletionError::DomainsDoNotMatch)));
    }
}

#[test]
fn url_of_the_content_counts_and_not_that_of_the_activity() {
    let replies = joined(
        found(post("https://other.example/post/9")),
        vec![done(), Reply::Community(Ok(community(true))), done()],
    );
    assert_eq!(run(start(STRANGER, false), replies).1, Some(Ok(())));
}

#[test]
fn moderator_deletes_content_from_any_domain() {
    for (object, kinds) in [(post(OBJECT), 3), (comment(OBJECT), 4)] {
        let replies = joined(
            found(object),
            vec![done(), Reply::Community(Ok(community(false))), done(), done()],
        );
        let (actions, result) = run(start(STRANGER, true), replies);
        let expected = vec![
            public(STRANGER),
            Action::ReadActivityCommunity(activity(STRANGER)),
            member(STRANGER, false),
            moderator(STRANGER, false),
        ];
        assert_eq!(actions, shown(joined(searches(OBJECT, kinds), expected)));
        assert_eq!(result, Some(Ok(())));
    }
}

#[test]
fn private_message_goes_from_its_own_domain() {
    let replies = || joined(found(private_message()), vec![done()]);
    let (actions, result) = run(start(ACTOR, false), replies());
    let expected = vec![Action::VerifyPerson(url(ACTOR))];
    assert_eq!(actions, shown(joined(searches(OBJECT, 5), expected)));
    assert_eq!(result, Some(Ok(())));
    let (_, result) = run(start(STRANGER, true), replies());
    assert_eq!(result, Some(Err(DeletionError::DomainsDoNotMatch)));
}

#[test]
fn first_refusal_ends_a_check() {
    let local = || found(DeletableObjects::Community(community(true)));
    assert_eq!(run(start(ACTOR, true), joined(local(), vec![failed()])).1, down());
    assert_eq!(run(start(ACTOR, true), joined(local(), vec![done(), failed()])).1, down());
    assert_eq!(run(start(ACTOR, true), joined(local(), vec![done(), done(), failed()])).1, down());
    let somebody = || found(DeletableObjects::Person(person(7, "bob", None)));
    assert_eq!(run(start(ACTOR, true), joined(somebody(), vec![failed()])).1, down());
    assert_eq!(run(start(ACTOR, true), joined(somebody(), vec![done(), failed()])).1, down());
    let lost = || Reply::Community(Err("down".to_string()));
    let known = || Reply::Community(Ok(community(true)));
    let content = || found(post(OBJECT));
    assert_eq!(run(start(ACTOR, true), joined(content(), vec![failed()])).1, down());
    assert_eq!(run(start(ACTOR, true), joined(content(), vec![done(), lost()])).1, down());
    let refused = vec![done(), known(), failed()];
    assert_eq!(run(start(ACTOR, true), joined(content(), refused)).1, down());
    let refused = vec![done(), known(), done(), failed()];
    assert_eq!(run(start(ACTOR, true), joined(content(), refused)).1, down());
    let refused = joined(found(private_message()), vec![failed()]);
    assert_eq!(run(start(ACTOR, true), refused).1, down());
    let broken = vec![Reply::FoundCommunity(Err("down".to_string()))];
    assert_eq!(run(start(ACTOR, true), broken).1, down());
}

#[test]
fn check_of_content_alone() {
    let check = |actor: &str, is_mod_action: bool, replies: Vec<Reply<String>>| {
        let c = community(true);
        run(verify_delete_post_or_comment(&url(actor), &url(OBJECT), &c, is_mod_action), replies)
    };
    let (actions, result) = check(ACTOR, false, vec![done()]);
    assert_eq!(actions, shown(vec![member(ACTOR, true)]));
    assert_eq!(result, Some(Ok(())));
    let (actions, result) = check(STRANGER, true, vec![done(), done()]);
    assert_eq!(actions, shown(vec![member(STRANGER, true), moderator(STRANGER, true)]));
    assert_eq!(result, Some(Ok(())));
    let (_, result) = check(STRANGER, false, vec![done()]);
    assert_eq!(result, Some(Err(DeletionError::DomainsDoNotMatch)));
    assert_eq!(check(ACTOR, false, vec![failed()]).1, down());
    assert_eq!(check(ACTOR, true, vec![done(), failed()]).1, down());
}
