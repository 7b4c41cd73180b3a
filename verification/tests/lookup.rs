//! Finding the object that a URL names.

use deletion::actions::{Action, DeletionError, ObjectKind, Reply};
use deletion::lookup::LookupProgress;
use deletion::objects::{
    Comment, CommentId, Community, CommunityId, DeletableObjects, Person, PersonId, Post, PostId,
    PrivateMessage, PrivateMessageId, Timestamp,
};
use deletion::urls::Url;

const OBJECT: &str = "https://away.example/o/1";

fn url(text: &str) -> Url {
    Url::parse(text.to_string()).unwrap()
}

/// Answers the questions with the replies in turn. Returns the kinds that were asked for, and the
/// result if there is one.
fn search(
    replies: Vec<Reply<String>>,
) -> (Vec<ObjectKind>, Option<Result<DeletableObjects, DeletionError<String>>>) {
    let mut kinds = vec![];
    let (mut lookup, mut action) = DeletableObjects::read_from_db(&url(OBJECT));
    for reply in replies {
        assert!(action.admits(&reply));
        match action {
            Action::ReadFromId { kind, ap_id } => {
                assert_eq!(ap_id, url(OBJECT));
                kinds.push(kind);
            }
            other => panic!("{:?}", other),
        }
        match lookup.resume(reply) {
            LookupProgress::Await(l, a) => {
                lookup = l;
                action = a;
            }
            LookupProgress::Complete(result) => return (kinds, Some(result)),
        }
    }
    (kinds, None)
}

fn community() -> Community {
    Community { id: CommunityId(21), actor_id: url(OBJECT), local: true }
}

fn person() -> Person {
    Person {
        id: PersonId(7),
        name: "bob".to_string(),
        actor_id: url(OBJECT),
        published: Timestamp { secs: 0, nanos: 0 },
        inbox: url("https://away.example/u/bob/inbox"),
        shared_inbox: None,
    }
}

fn post() -> Post {
    Post { id: PostId(31), ap_id: url(OBJECT), deleted: false }
}

fn comment() -> Comment {
    Comment { id: CommentId(41), ap_id: url(OBJECT), deleted: false }
}

fn private_message() -> PrivateMessage {
    PrivateMessage { id: PrivateMessageId(51), ap_id: url(OBJECT), recipient_id: PersonId(5) }
}

const ORDER: [ObjectKind; 5] = [
    ObjectKind::Community,
    ObjectKind::Person,
    ObjectKind::Post,
    ObjectKind::Comment,
    ObjectKind::PrivateMessage,
];

/// The replies that there are no objects of the first kinds.
fn nothing(kinds: usize) -> Vec<Reply<String>> {
    let mut replies = vec![
        Reply::FoundCommunity(Ok(None)),
        Reply::FoundPerson(Ok(None)),
        Reply::FoundPost(Ok(None)),
        Reply::FoundComment(Ok(None)),
        Reply::FoundPrivateMessage(Ok(None)),
    ];
    replies.truncate(kinds);
    replies
}

#[test]
fn first_object_found_is_the_one() {
    let finds = vec![
        (Reply::FoundCommunity(Ok(Some(community()))), DeletableObjects::Community(community())),
        (Reply::FoundPerson(Ok(Some(person()))), DeletableObjects::Person(person())),
        (Reply::FoundPost(Ok(Some(post()))), DeletableObjects::Post(post())),
        (Reply::FoundComment(Ok(Some(comment()))), DeletableObjects::Comment(comment())),
        (
            Reply::FoundPrivateMessage(Ok(Some(private_message()))),
            DeletableObjects::PrivateMessage(private_message()),
        ),
    ];
    for (n, (reply, object)) in finds.into_iter().enumerate() {
        let mut replies = nothing(n);
        replies.push(reply);
        let (kinds, result) = search(replies);
        assert_eq!(kinds, ORDER[..n + 1].to_vec());
        assert_eq!(result, Some(Ok(object)));
    }
}

#[test]
fn search_goes_through_all_kinds() {
    for n in 0..5 {
        let (kinds, result) = search(nothing(n));
        assert_eq!(kinds, ORDER[..n].to_vec());
        assert_eq!(result, None);
    }
    let (kinds, result) = search(nothing(5));
    assert_eq!(kinds, ORDER.to_vec());
    assert_eq!(result, Some(Err(DeletionError::NotFound)));
}

#[test]
fn failure_ends_a_search() {
    let error = || "down".to_string();
    let failures: Vec<Reply<String>> = vec![
        Reply::FoundCommunity(Err(error())),
        Reply::FoundPerson(Err(error())),
        Reply::FoundPost(Err(error())),
        Reply::FoundComment(Err(error())),
        Reply::FoundPrivateMessage(Err(error())),
    ];
    for (n, reply) in failures.into_iter().enumerate() {
        let mut replies = nothing(n);
        replies.push(reply);
        let (kinds, result) = search(replies);
        assert_eq!(kinds.len(), n + 1);
        assert_eq!(result, Some(Err(DeletionError::Service(error()))));
    }
}
