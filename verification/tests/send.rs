//! Sending deletions out.

use activitystreams::activity::kind::UndoType;
use activitystreams::unparsed::Unparsed;
use deletion::actions::{Action, DeletionError, NewActivity, Reply};
use deletion::activities::{ActivitySendTargets, AnnouncableActivities, Delete, UndoDelete};
use deletion::objects::{
    Comment, CommentId, Community, CommunityId, DeletableObjects, Person, PersonId, Post, PostId,
    PrivateMessage, PrivateMessageId, Timestamp,
};
use deletion::program::{Progress, Workflow};
use deletion::send::{
    send_apub_delete_in_community, send_apub_delete_private_message, send_apub_delete_user,
};
use deletion::urls::Url;

const PUBLIC: &str = "https://www.w3.org/ns/activitystreams#Public";

type Outcome = Option<Result<(), DeletionError<String>>>;

/// Answers the actions with the replies in turn. Returns the actions, and the result if there is
/// one.
fn run<S: Workflow<String>>(
    start: Progress<S, String>,
    replies: Vec<Reply<String>>,
) -> (Vec<String>, Outcome) {
    let mut actions = vec![];
    let mut progress = start;
    for reply in replies {
        match progress {
            Progress::Await(state, action) => {
                assert!(action.admits(&reply), "{:?} for {:?}", reply, action);
                actions.push(format!("{:?}", action));
                progress = state.resume(reply);
            }
            Progress::Complete(_) => panic!("one reply too many: {:?}", reply),
        }
    }
    match progress {
        Progress::Await(_, action) => {
            actions.push(format!("{:?}", action));
            (actions, None)
        }
        Progress::Complete(result) => (actions, Some(result)),
    }
}

fn shown(actions: Vec<Action>) -> Vec<String> {
    actions.iter().map(|a| format!("{:?}", a)).collect()
}

fn url(text: &str) -> Url {
    Url::parse(text.to_string()).unwrap()
}

fn done() -> Reply<String> {
    Reply::Done(Ok(()))
}

fn failed() -> Reply<String> {
    Reply::Done(Err("down".to_string()))
}

fn down() -> Outcome {
    Some(Err(DeletionError::Service("down".to_string())))
}

fn person(id: i32, name: &str, shared_inbox: Option<Url>) -> Person {
    Person {
        id: PersonId(id),
        name: name.to_string(),
        actor_id: url(&format!("https://away.example/u/{}", name)),
        published: Timestamp { secs: 1_699_999_000, nanos: 0 },
        inbox: url(&format!("https://away.example/u/{}/inbox", name)),
        shared_inbox,
    }
}

fn community(local: bool) -> Community {
    Community { id: CommunityId(21), actor_id: url("https://home.example/c/main"), local }
}

fn bob() -> Person {
    person(7, "bob", None)
}

fn post() -> DeletableObjects {
    DeletableObjects::Post(Post {
        id: PostId(31),
        ap_id: url("https://home.example/post/31"),
        deleted: false,
    })
}

fn private_message() -> PrivateMessage {
    PrivateMessage {
        id: PrivateMessageId(51),
        ap_id: url("https://home.example/private_message/51"),
        recipient_id: PersonId(5),
    }
}

fn delete() -> Delete {
    Delete {
        id: url("https://home.example/activities/delete/1"),
        actor: url("https://away.example/u/bob"),
        to: vec![url(PUBLIC)],
        object: url("https://home.example/post/31"),
        summary: None,
        remove_data: None,
    }
}

fn undo() -> UndoDelete {
    UndoDelete {
        actor: url("https://away.example/u/bob"),
        to: vec![url(PUBLIC)],
        object: delete(),
        cc: vec![],
        kind: UndoType::Undo,
        id: url("https://home.example/activities/undo/1"),
        unparsed: Unparsed::default(),
    }
}

fn new_in_community(summary: Option<&str>) -> NewActivity {
    NewActivity {
        actor: bob(),
        object: post(),
        to: url(PUBLIC),
        community: Some(community(true)),
        summary: summary.map(|s| s.to_string()),
    }
}

fn announced(activity: AnnouncableActivities, is_mod_action: bool) -> Action {
    Action::SendActivityInCommunity {
        activity,
        actor: bob(),
        community: community(true),
        targets: ActivitySendTargets::Empty,
        is_mod_action,
    }
}

fn new_for(recipient: &Person) -> NewActivity {
    NewActivity {
        actor: bob(),
        object: DeletableObjects::PrivateMessage(private_message()),
        to: recipient.actor_id.clone(),
        community: None,
        summary: None,
    }
}

#[test]
fn deletion_by_the_owner_is_announced_in_the_community() {
    let start = send_apub_delete_in_community(bob(), community(true), post(), None, true);
    let (actions, result) = run(start, vec![Reply::NewDelete(Ok(delete())), done()]);
    let expected = vec![
        Action::NewDelete(new_in_community(None)),
        announced(AnnouncableActivities::Delete(delete()), false),
    ];
    assert_eq!(actions, shown(expected));
    assert_eq!(result, Some(Ok(())));
}

#[test]
fn removal_with_a_reason_is_the_act_of_a_moderator() {
    let reason = Some("spam".to_string());
    let start = send_apub_delete_in_community(bob(), community(true), post(), reason, true);
    let (actions, result) = run(start, vec![Reply::NewDelete(Ok(delete())), done()]);
    let expected = vec![
        Action::NewDelete(new_in_community(Some("spam"))),
        announced(AnnouncableActivities::Delete(delete()), true),
    ];
    assert_eq!(actions, shown(expected));
    assert_eq!(result, Some(Ok(())));
}

#[test]
fn restoring_is_announced_as_the_undoing_of_a_deletion() {
    for (reason, is_mod_action) in [(None, false), (Some("mistake"), true)] {
        let text = reason.map(|r: &str| r.to_string());
        let start = send_apub_delete_in_community(bob(), community(true), post(), text, false);
        let (actions, result) = run(start, vec![Reply::NewUndoDelete(Ok(undo())), done()]);
        let expected = vec![
            Action::NewUndoDelete(new_in_community(reason)),
            announced(AnnouncableActivities::UndoDelete(undo()), is_mod_action),
        ];
        assert_eq!(actions, shown(expected));
        assert_eq!(result, Some(Ok(())));
    }
}

#[test]
fn failed_announcement_is_reported() {
    let fresh = |deleted: bool| {
        send_apub_delete_in_community(bob(), community(true), post(), None, deleted)
    };
    assert_eq!(run(fresh(true), vec![Reply::NewDelete(Err("down".to_string()))]).1, down());
    assert_eq!(run(fresh(false), vec![Reply::NewUndoDelete(Err("down".to_string()))]).1, down());
    assert_eq!(run(fresh(true), vec![Reply::NewDelete(Ok(delete())), failed()]).1, down());
}

#[test]
fn deleted_private_message_concerns_its_recipient_alone() {
    let shared = Some(url("https://away.example/inbox"));
    for (shared_inbox, inbox) in [
        (shared, "https://away.example/inbox"),
        (None, "https://away.example/u/alice/inbox"),
    ] {
        let recipient = person(5, "alice", shared_inbox);
        let start = send_apub_delete_private_message(&bob(), private_message(), true);
        let replies = vec![
            Reply::FoundPerson(Ok(Some(recipient.clone()))),
            Reply::NewDelete(Ok(delete())),
            done(),
        ];
        let (actions, result) = run(start, replies);
        let expected = vec![
            Action::ReadPerson(PersonId(5)),
            Action::NewDelete(new_for(&recipient)),
            Action::SendLemmyActivity {
                activity: AnnouncableActivities::Delete(delete()),
                actor: bob(),
                targets: ActivitySendTargets::Inbox(url(inbox)),
                sensitive: true,
            },
        ];
        assert_eq!(actions, shown(expected));
        assert_eq!(result, Some(Ok(())));
    }
}

#[test]
fn restored_private_message_concerns_its_recipient_alone() {
    let recipient = person(5, "alice", None);
    let start = send_apub_delete_private_message(&bob(), private_message(), false);
    let replies = vec![
        Reply::FoundPerson(Ok(Some(recipient.clone()))),
        Reply::NewUndoDelete(Ok(undo())),
        done(),
    ];
    let (actions, result) = run(start, replies);
    let expected = vec![
        Action::ReadPerson(PersonId(5)),
        Action::NewUndoDelete(new_for(&recipient)),
        Action::SendLemmyActivity {
            activity: AnnouncableActivities::UndoDelete(undo()),
            actor: bob(),
            targets: ActivitySendTargets::Inbox(url("https://away.example/u/alice/inbox")),
            sensitive: true,
        },
    ];
    assert_eq!(actions, shown(expected));
    assert_eq!(result, Some(Ok(())));
}

#[test]
fn recipient_has_to_exist() {
    let start = send_apub_delete_private_message(&bob(), private_message(), true);
    let (_, result) = run(start, vec![Reply::FoundPerson(Ok(None))]);
    assert_eq!(result, Some(Err(DeletionError::CouldntFindPerson)));
}

#[test]
fn failed_private_message_send_is_reported() {
    let fresh =
        |deleted: bool| send_apub_delete_private_message(&bob(), private_message(), deleted);
    let alice = || Reply::FoundPerson(Ok(Some(person(5, "alice", None))));
    let lost = Reply::FoundPerson(Err("down".to_string()));
    assert_eq!(run(fresh(true), vec![lost]).1, down());
    let unmade = vec![alice(), Reply::NewDelete(Err("down".to_string()))];
    assert_eq!(run(fresh(true), unmade).1, down());
    let unmade = vec![alice(), Reply::NewUndoDelete(Err("down".to_string()))];
    assert_eq!(run(fresh(false), unmade).1, down());
    let unsent = vec![alice(), Reply::NewDelete(Ok(delete())), failed()];
    assert_eq!(run(fresh(true), unsent).1, down());
}

#[test]
fn deleted_account_concerns_all_instances() {
    for remove_data in [true, false] {
        let (actions, result) = run(
            send_apub_delete_user(bob(), remove_data),
            vec![Reply::NewDelete(Ok(delete())), done()],
        );
        let sent = Delete { remove_data: Some(remove_data), ..delete() };
        let expected = vec![
            Action::NewDelete(NewActivity {
                actor: bob(),
                object: DeletableObjects::Person(bob()),
                to: url(PUBLIC),
                community: None,
                summary: None,
            }),
            Action::SendLemmyActivity {
                activity: AnnouncableActivities::Delete(sent),
                actor: bob(),
                targets: ActivitySendTargets::AllInstances,
                sensitive: true,
            },
        ];
        assert_eq!(actions, shown(expected));
        assert_eq!(result, Some(Ok(())));
    }
}

#[test]
fn failed_account_news_is_reported() {
    let unmade = vec![Reply::NewDelete(Err("down".to_string()))];
    assert_eq!(run(send_apub_delete_user(bob(), true), unmade).1, down());
    let unsent = vec![Reply::NewDelete(Ok(delete())), failed()];
    assert_eq!(run(send_apub_delete_user(bob(), true), unsent).1, down());
}

#[test]
fn objects_are_named_by_their_urls() {
    assert_eq!(post().id(), url("https://home.example/post/31"));
    let person = DeletableObjects::Person(bob());
    assert_eq!(person.id(), url("https://away.example/u/bob"));
    let group = DeletableObjects::Community(community(true));
    assert_eq!(group.id(), url("https://home.example/c/main"));
    let comment = DeletableObjects::Comment(Comment {
        id: CommentId(41),
        ap_id: url("https://home.example/comment/41"),
        deleted: true,
    });
    assert_eq!(comment.id(), url("https://home.example/comment/41"));
    let message = DeletableObjects::PrivateMessage(private_message());
    assert_eq!(message.id(), url("https://home.example/private_message/51"));
}
