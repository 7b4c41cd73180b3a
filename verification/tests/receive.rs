//! Carrying out incoming deletions.

use deletion::actions::{
    Action, AutomodReport, AutomodRule, BanFromCommunity, CommunityFollowerForm,
    CommunityPersonBanForm, DeletionError, ModBanForm, ModBanFromCommunityForm, NewActivity,
    ObjectKind, PersonUpdateForm, Reply, SendActivityData,
};
use deletion::activities::{ActivitySendTargets, AnnouncableActivities, Delete};
use deletion::automod::AutomodConfig;
use deletion::objects::{
    Comment, CommentId, Community, CommunityId, DeletableObjects, Person, PersonId, Post, PostId,
    PrivateMessage, PrivateMessageId, Timestamp,
};
use deletion::program::{Progress, Workflow};
use deletion::receive::{receive_delete_action, DeleteReception};
use deletion::urls::Url;

const OBJECT: &str = "https://away.example/o/1";
const ACTOR: &str = "https://away.example/u/bob";
const PUBLIC: &str = "https://www.w3.org/ns/activitystreams#Public";
const NOW: Timestamp = Timestamp { secs: 1_700_000_000, nanos: 0 };

type Outcome = Option<Result<(), DeletionError<String>>>;

/// Answers the actions with the replies in turn. Returns the actions, and the result if there is
/// one.
fn run<S: Workflow<String>>(
    start: Progress<S, String>,
    replies: Vec<Reply<String>>,
) -> (Vec<String>, Outcome) {
    let mut actions = vec![];
    let mut progress = start;
    for reply in replies {
        match progress {
            Progress::Await(state, action) => {
                assert!(action.admits(&reply), "{:?} for {:?}", reply, action);
                actions.push(format!("{:?}", action));
                progress = state.resume(reply);
            }
            Progress::Complete(_) => panic!("one reply too many: {:?}", reply),
        }
    }
    match progress {
        Progress::Await(_, action) => {
            actions.push(format!("{:?}", action));
            (actions, None)
        }
        Progress::Complete(result) => (actions, Some(result)),
    }
}

fn shown(actions: Vec<Action>) -> Vec<String> {
    actions.iter().map(|a| format!("{:?}", a)).collect()
}

fn url(text: &str) -> Url {
    Url::parse(text.to_string()).unwrap()
}

fn done() -> Reply<String> {
    Reply::Done(Ok(()))
}

fn failed() -> Reply<String> {
    Reply::Done(Err("down".to_string()))
}

fn down() -> Outcome {
    Some(Err(DeletionError::Service("down".to_string())))
}

fn person(id: i32, name: &str, shared_inbox: Option<Url>) -> Person {
    Person {
        id: PersonId(id),
        name: name.to_string(),
        actor_id: url(&format!("https://away.example/u/{}", name)),
        published: Timestamp { secs: 1_699_999_000, nanos: 0 },
        inbox: url(&format!("https://away.example/u/{}/inbox", name)),
        shared_inbox,
    }
}

fn community(local: bool) -> Community {
    Community { id: CommunityId(21), actor_id: url("https://home.example/c/main"), local }
}

fn ask(kind: ObjectKind, ap_id: &str) -> Action {
    Action::ReadFromId { kind, ap_id: url(ap_id) }
}

/// The searches up to the one among the objects of the last kind.
fn searches(ap_id: &str, kinds: usize) -> Vec<Action> {
    let order = [
        ObjectKind::Community,
        ObjectKind::Person,
        ObjectKind::Post,
        ObjectKind::Comment,
        ObjectKind::PrivateMessage,
    ];
    order[..kinds].iter().map(|k| ask(*k, ap_id)).collect()
}

/// The replies to a search that finds the object.
fn found(object: DeletableObjects) -> Vec<Reply<String>> {
    let mut replies = vec![];
    match object {
        DeletableObjects::Community(c) => replies.push(Reply::FoundCommunity(Ok(Some(c)))),
        DeletableObjects::Person(p) => {
            replies.push(Reply::FoundCommunity(Ok(None)));
            replies.push(Reply::FoundPerson(Ok(Some(p))));
        }
        DeletableObjects::Post(p) => {
            replies.push(Reply::FoundCommunity(Ok(None)));
            replies.push(Reply::FoundPerson(Ok(None)));
            replies.push(Reply::FoundPost(Ok(Some(p))));
        }
        DeletableObjects::Comment(c) => {
            replies.push(Reply::FoundCommunity(Ok(None)));
            replies.push(Reply::FoundPerson(Ok(None)));
            replies.push(Reply::FoundPost(Ok(None)));
            replies.push(Reply::FoundComment(Ok(Some(c))));
        }
        DeletableObjects::PrivateMessage(p) => {
            replies.push(Reply::FoundCommunity(Ok(None)));
            replies.push(Reply::FoundPerson(Ok(None)));
            replies.push(Reply::FoundPost(Ok(None)));
            replies.push(Reply::FoundComment(Ok(None)));
            replies.push(Reply::FoundPrivateMessage(Ok(Some(p))));
        }
    }
    replies
}

fn nothing_found() -> Vec<Reply<String>> {
    vec![
        Reply::FoundCommunity(Ok(None)),
        Reply::FoundPerson(Ok(None)),
        Reply::FoundPost(Ok(None)),
        Reply::FoundComment(Ok(None)),
        Reply::FoundPrivateMessage(Ok(None)),
    ]
}

fn joined<T>(mut first: Vec<T>, second: Vec<T>) -> Vec<T> {
    first.extend(second);
    first
}

fn bob() -> Person {
    person(7, "bob", None)
}

fn automod() -> Person {
    person(99, "automod", None)
}

fn config(days: Option<u64>, name: Option<&str>) -> AutomodConfig {
    AutomodConfig {
        ban_deleted_persons_created_within_days: days,
        actor_username: name.map(|n| n.to_string()),
    }
}

fn start(
    deleted: bool,
    purge: Option<bool>,
    config: AutomodConfig,
) -> Progress<DeleteReception, String> {
    receive_delete_action(&url(OBJECT), &url(ACTOR), deleted, purge, config)
}

fn simple(deleted: bool) -> Progress<DeleteReception, String> {
    start(deleted, None, config(Some(3), Some("automod")))
}

fn post(deleted: bool) -> DeletableObjects {
    DeletableObjects::Post(Post { id: PostId(31), ap_id: url(OBJECT), deleted })
}

fn comment(deleted: bool) -> DeletableObjects {
    DeletableObjects::Comment(Comment { id: CommentId(41), ap_id: url(OBJECT), deleted })
}

fn private_message() -> DeletableObjects {
    DeletableObjects::PrivateMessage(PrivateMessage {
        id: PrivateMessageId(51),
        ap_id: url(OBJECT),
        recipient_id: PersonId(5),
    })
}

fn delete() -> Delete {
    Delete {
        id: url("https://home.example/activities/delete/1"),
        actor: url(ACTOR),
        to: vec![url(PUBLIC)],
        object: url(OBJECT),
        summary: None,
        remove_data: None,
    }
}

fn told(object: DeletableObjects, deleted: bool) -> Action {
    Action::SendWebsocketMessage { object, deleted }
}

fn issuing_ban() -> Action {
    Action::Log(AutomodReport::IssuingBan {
        rule: AutomodRule::BanFederatedDeletedUser,
        user: "https://away.example/u/bob".to_string(),
    })
}

fn community_bans(id: i32) -> Vec<Action> {
    vec![
        Action::BanFromCommunity(CommunityPersonBanForm {
            community_id: CommunityId(id),
            person_id: PersonId(8),
            expires: None,
        }),
        Action::Unfollow(CommunityFollowerForm {
            community_id: CommunityId(id),
            person_id: PersonId(8),
            pending: false,
        }),
        Action::CreateModBanFromCommunity(ModBanFromCommunityForm {
            mod_person_id: PersonId(99),
            other_person_id: PersonId(8),
            community_id: CommunityId(id),
            reason: Some("automod".to_string()),
            banned: Some(true),
            expires: None,
        }),
        Action::SubmitActivity(SendActivityData::BanFromCommunity {
            moderator: automod(),
            community_id: CommunityId(id),
            target: person(8, "bob", None),
            data: BanFromCommunity {
                community_id: CommunityId(id),
                person_id: PersonId(8),
                ban: true,
                reason: Some("automod".to_string()),
                remove_data: Some(true),
                expires: None,
            },
        }),
    ]
}

fn person_ban() -> Vec<Action> {
    vec![
        Action::DeleteAccount(PersonId(7)),
        Action::ReadClock { days_back: 3 },
        issuing_ban(),
        Action::ReadLocalUserByName("automod".to_string()),
        Action::UpdatePerson(
            PersonId(7),
            PersonUpdateForm { banned: Some(true), ban_expires: Some(None) },
        ),
        Action::RemoveUserData(PersonId(8)),
        Action::CreateModBan(ModBanForm {
            mod_person_id: PersonId(99),
            other_person_id: PersonId(8),
            reason: Some("automod".to_string()),
            banned: Some(true),
            expires: None,
        }),
        Action::ListLocalCommunityIds(PersonId(8)),
    ]
}

fn person_ban_replies(communities: Vec<CommunityId>) -> Vec<Reply<String>> {
    joined(
        found(DeletableObjects::Person(bob())),
        vec![
            done(),
            Reply::Time(NOW),
            Reply::Logged,
            Reply::FoundPerson(Ok(Some(automod()))),
            Reply::Person(Ok(person(8, "bob", None))),
            done(),
            done(),
            Reply::CommunityIds(Ok(communities)),
        ],
    )
}

#[test]
fn object_has_to_exist() {
    let (actions, result) = run(simple(true), nothing_found());
    assert_eq!(actions, shown(searches(OBJECT, 5)));
    assert_eq!(result, Some(Err(DeletionError::NotFound)));
}

#[test]
fn failed_search_ends_a_reception() {
    let replies =
        vec![Reply::FoundCommunity(Ok(None)), Reply::FoundPerson(Err("down".to_string()))];
    assert_eq!(run(simple(true), replies).1, down());
}

#[test]
fn post_is_marked() {
    for deleted in [true, false] {
        let replies = joined(found(post(!deleted)), vec![done(), done()]);
        let (actions, result) = run(simple(deleted), replies);
        let update = Action::UpdatePost { id: PostId(31), deleted };
        let expected = vec![update, told(post(!deleted), deleted)];
        assert_eq!(actions, shown(joined(searches(OBJECT, 3), expected)));
        assert_eq!(result, Some(Ok(())));
    }
}

#[test]
fn comment_is_marked() {
    for deleted in [true, false] {
        let replies = joined(found(comment(!deleted)), vec![done(), done()]);
        let (actions, result) = run(simple(deleted), replies);
        let update = Action::UpdateComment { id: CommentId(41), deleted };
        let expected = vec![update, told(comment(!deleted), deleted)];
        assert_eq!(actions, shown(joined(searches(OBJECT, 4), expected)));
        assert_eq!(result, Some(Ok(())));
    }
}

#[test]
fn content_that_is_marked_already_is_left_alone() {
    for deleted in [true, false] {
        let replies = joined(found(post(deleted)), vec![done()]);
        let (actions, result) = run(simple(deleted), replies);
        let expected = vec![told(post(deleted), deleted)];
        assert_eq!(actions, shown(joined(searches(OBJECT, 3), expected)));
        assert_eq!(result, Some(Ok(())));
        let replies = joined(found(comment(deleted)), vec![done()]);
        let (actions, result) = run(simple(deleted), replies);
        let expected = vec![told(comment(deleted), deleted)];
        assert_eq!(actions, shown(joined(searches(OBJECT, 4), expected)));
        assert_eq!(result, Some(Ok(())));
    }
}

#[test]
fn private_message_is_marked_in_any_case() {
    for deleted in [true, false] {
        let replies = joined(found(private_message()), vec![done(), done()]);
        let (actions, result) = run(simple(deleted), replies);
        let update = Action::UpdatePrivateMessage { id: PrivateMessageId(51), deleted };
        let expected = vec![update, told(private_message(), deleted)];
        assert_eq!(actions, shown(joined(searches(OBJECT, 5), expected)));
        assert_eq!(result, Some(Ok(())));
    }
}

#[test]
fn failed_write_is_reported() {
    assert_eq!(run(simple(true), joined(found(post(false)), vec![failed()])).1, down());
    assert_eq!(run(simple(true), joined(found(comment(false)), vec![failed()])).1, down());
    assert_eq!(run(simple(true), joined(found(private_message()), vec![failed()])).1, down());
}

#[test]
fn remote_community_is_only_marked() {
    for deleted in [true, false] {
        let remote = || DeletableObjects::Community(community(false));
        let replies = joined(found(remote()), vec![done(), done()]);
        let (actions, result) = run(simple(deleted), replies);
        let update = Action::UpdateCommunity { id: CommunityId(21), deleted };
        let expected = vec![update, told(remote(), deleted)];
        assert_eq!(actions, shown(joined(searches(OBJECT, 1), expected)));
        assert_eq!(result, Some(Ok(())));
    }
}

#[test]
fn followers_of_a_local_community_are_told_first() {
    // The followers are told of a deletion even where the community is restored.
    for deleted in [true, false] {
        let replies = joined(
            found(DeletableObjects::Community(community(true))),
            vec![
                Reply::Person(Ok(bob())),
                Reply::NewDelete(Ok(delete())),
                done(),
                done(),
                done(),
            ],
        );
        let (actions, result) = run(simple(deleted), replies);
        let expected = vec![
            Action::Dereference(url(ACTOR)),
            Action::NewDelete(NewActivity {
                actor: bob(),
                object: DeletableObjects::Community(community(true)),
                to: url(PUBLIC),
                community: Some(community(true)),
                summary: None,
            }),
            Action::SendActivityInCommunity {
                activity: AnnouncableActivities::Delete(delete()),
                actor: bob(),
                community: community(true),
                targets: ActivitySendTargets::Empty,
                is_mod_action: false,
            },
            Action::UpdateCommunity { id: CommunityId(21), deleted },
            told(DeletableObjects::Community(community(true)), deleted),
        ];
        assert_eq!(actions, shown(joined(searches(OBJECT, 1), expected)));
        assert_eq!(result, Some(Ok(())));
    }
}

#[test]
fn local_community_is_not_marked_where_telling_fails() {
    let local = || found(DeletableObjects::Community(community(true)));
    let lost = Reply::Person(Err("down".to_string()));
    assert_eq!(run(simple(true), joined(local(), vec![lost])).1, down());
    let unmade = vec![Reply::Person(Ok(bob())), Reply::NewDelete(Err("down".to_string()))];
    assert_eq!(run(simple(true), joined(local(), unmade)).1, down());
    let unsent = vec![Reply::Person(Ok(bob())), Reply::NewDelete(Ok(delete())), failed()];
    assert_eq!(run(simple(true), joined(local(), unsent)).1, down());
    let unwritten =
        vec![Reply::Person(Ok(bob())), Reply::NewDelete(Ok(delete())), done(), failed()];
    assert_eq!(run(simple(true), joined(local(), unwritten)).1, down());
}

#[test]
fn purged_person_is_not_banned() {
    let start = start(true, Some(true), config(Some(3), Some("automod")));
    let replies = joined(found(DeletableObjects::Person(bob())), vec![done(), done()]);
    let (actions, result) = run(start, replies);
    let expected = vec![
        Action::PurgeUserAccount(PersonId(7)),
        told(DeletableObjects::Person(bob()), true),
    ];
    assert_eq!(actions, shown(joined(searches(OBJECT, 2), expected)));
    assert_eq!(result, Some(Ok(())));
}

#[test]
fn person_is_only_deleted_without_automod() {
    for purge in [None, Some(false)] {
        let start = start(true, purge, config(None, Some("automod")));
        let replies = joined(found(DeletableObjects::Person(bob())), vec![done(), done()]);
        let (actions, result) = run(start, replies);
        let expected = vec![
            Action::DeleteAccount(PersonId(7)),
            told(DeletableObjects::Person(bob()), true),
        ];
        assert_eq!(actions, shown(joined(searches(OBJECT, 2), expected)));
        assert_eq!(result, Some(Ok(())));
    }
}

#[test]
fn old_person_is_not_banned() {
    let mut old = bob();
    old.published = Timestamp { secs: NOW.secs - 3 * 86_400, nanos: 0 };
    let replies = joined(
        found(DeletableObjects::Person(old.clone())),
        vec![done(), Reply::Time(NOW), done()],
    );
    let (actions, result) = run(simple(true), replies);
    let expected = vec![
        Action::DeleteAccount(PersonId(7)),
        Action::ReadClock { days_back: 3 },
        told(DeletableObjects::Person(old), true),
    ];
    assert_eq!(actions, shown(joined(searches(OBJECT, 2), expected)));
    assert_eq!(result, Some(Ok(())));
}

#[test]
fn young_person_is_not_banned_without_a_moderator() {
    let replies = joined(
        found(DeletableObjects::Person(bob())),
        vec![done(), Reply::Time(NOW), Reply::Logged, Reply::Logged, done()],
    );
    let (actions, result) = run(start(true, None, config(Some(3), None)), replies);
    let expected = vec![
        Action::DeleteAccount(PersonId(7)),
        Action::ReadClock { days_back: 3 },
        issuing_ban(),
        Action::Log(AutomodReport::NoAutomodUser { rule: AutomodRule::BanFederatedDeletedUser }),
        told(DeletableObjects::Person(bob()), true),
    ];
    assert_eq!(actions, shown(joined(searches(OBJECT, 2), expected)));
    assert_eq!(result, Some(Ok(())));
}

#[test]
fn moderator_of_remote_persons_has_to_exist() {
    let replies = joined(
        found(DeletableObjects::Person(bob())),
        vec![done(), Reply::Time(NOW), Reply::Logged, Reply::FoundPerson(Ok(None))],
    );
    assert_eq!(run(simple(true), replies).1, Some(Err(DeletionError::CouldntFindPerson)));
}

#[test]
fn failed_ban_of_a_remote_person_is_reported_as_such() {
    let replies = joined(
        found(DeletableObjects::Person(bob())),
        vec![
            done(),
            Reply::Time(NOW),
            Reply::Logged,
            Reply::FoundPerson(Ok(Some(automod()))),
            Reply::Person(Err("locked".to_string())),
        ],
    );
    let expected = DeletionError::CouldntUpdateUser("locked".to_string());
    assert_eq!(run(simple(true), replies).1, Some(Err(expected)));
}

#[test]
fn young_person_without_communities_is_banned_from_the_instance() {
    let (actions, result) =
        run(simple(true), joined(person_ban_replies(vec![]), vec![done()]));
    let mut expected = joined(searches(OBJECT, 2), person_ban());
    expected.push(told(DeletableObjects::Person(bob()), true));
    assert_eq!(actions, shown(expected));
    assert_eq!(result, Some(Ok(())));
}

#[test]
fn young_person_is_banned_from_every_community() {
    let mut replies = person_ban_replies(vec![CommunityId(1), CommunityId(2), CommunityId(3)]);
    for _ in 0..13 {
        replies.push(done());
    }
    let (actions, result) = run(simple(true), replies);
    let mut expected = joined(searches(OBJECT, 2), person_ban());
    for id in 1..4 {
        expected.extend(community_bans(id));
    }
    expected.push(told(DeletableObjects::Person(bob()), true));
    assert_eq!(actions, shown(expected));
    assert_eq!(result, Some(Ok(())));
}

#[test]
fn restoring_a_person_writes_nothing() {
    for purge in [None, Some(false), Some(true)] {
        let start = start(false, purge, config(Some(3), Some("automod")));
        let replies = joined(found(DeletableObjects::Person(bob())), vec![done()]);
        let (actions, result) = run(start, replies);
        let expected = vec![told(DeletableObjects::Person(bob()), false)];
        assert_eq!(actions, shown(joined(searches(OBJECT, 2), expected)));
        assert_eq!(result, Some(Ok(())));
    }
}

#[test]
fn failure_to_tell_the_clients_is_reported() {
    assert_eq!(run(simple(true), joined(found(post(true)), vec![failed()])).1, down());
    assert_eq!(run(simple(true), joined(found(post(false)), vec![done(), failed()])).1, down());
    let remote = found(DeletableObjects::Community(community(false)));
    assert_eq!(run(simple(true), joined(remote, vec![done(), failed()])).1, down());
    let restored = found(DeletableObjects::Person(bob()));
    assert_eq!(run(simple(false), joined(restored, vec![failed()])).1, down());
}

#[test]
fn restoring_sets_the_last_mark() {
    let mut marks = vec![];
    for deleted in [true, false] {
        let replies = joined(found(private_message()), vec![done(), done()]);
        let (actions, result) = run(simple(deleted), replies);
        assert_eq!(result, Some(Ok(())));
        marks.extend(actions.into_iter().filter(|a| a.starts_with("Update")));
    }
    let expected = vec![
        Action::UpdatePrivateMessage { id: PrivateMessageId(51), deleted: true },
        Action::UpdatePrivateMessage { id: PrivateMessageId(51), deleted: false },
    ];
    assert_eq!(marks, shown(expected));
}

#[test]
fn failed_community_ban_is_no_hindrance() {
    let mut replies = person_ban_replies(vec![CommunityId(1), CommunityId(2)]);
    replies.extend(vec![failed(), failed(), done(), done()]);
    replies.extend(vec![failed(), done(), done(), done()]);
    replies.push(done());
    let (actions, result) = run(simple(true), replies);
    let mut expected = joined(searches(OBJECT, 2), person_ban());
    expected.extend(community_bans(1));
    expected.extend(community_bans(2));
    expected.push(told(DeletableObjects::Person(bob()), true));
    assert_eq!(actions, shown(expected));
    assert_eq!(result, Some(Ok(())));
}

#[test]
fn failed_community_log_or_news_is_a_hindrance() {
    let ban = || person_ban_replies(vec![CommunityId(1), CommunityId(2)]);
    assert_eq!(run(simple(true), joined(ban(), vec![done(), done(), failed()])).1, down());
    assert_eq!(run(simple(true), joined(ban(), vec![done(), done(), done(), failed()])).1, down());
}

#[test]
fn first_failure_ends_the_deletion_of_a_person() {
    let all = || person_ban_replies(vec![]);
    let cut = |n: usize, last: Reply<String>| {
        let mut replies = all();
        replies.truncate(n);
        replies.push(last);
        run(simple(true), replies).1
    };
    assert_eq!(cut(2, failed()), down());
    assert_eq!(cut(5, Reply::FoundPerson(Err("down".to_string()))), down());
    assert_eq!(cut(7, failed()), down());
    assert_eq!(cut(8, failed()), down());
    assert_eq!(cut(9, Reply::CommunityIds(Err("down".to_string()))), down());
    assert_eq!(cut(10, failed()), down());
}
