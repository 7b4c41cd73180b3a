//! The deletion of a local account.

use deletion::account::{
    delete_account, delete_account_if, AccountDeletion, DeleteAccount, LocalUser, LocalUserView,
};
use deletion::actions::{
    Action, AutomodReport, AutomodRule, DeletionError, ModBanForm, PersonUpdateForm, Reply,
    SendActivityData,
};
use deletion::automod::AutomodConfig;
use deletion::objects::{LocalUserId, Person, PersonId, Timestamp};
use deletion::password::is_password;
use deletion::program::{Progress, Workflow};
use deletion::urls::Url;

const HASH: &str = "$2b$04$EGdrhbKUv8Oc9vGiXX0HQOxSg445d458Muh7DAHskb6QbtCvdxcie";
const PASSWORD: &str = "correctbatteryhorsestapler";
const DAY: i64 = 86_400;
const NOW: Timestamp = Timestamp { secs: 1_700_000_000, nanos: 500 };

type Outcome = Option<Result<(), DeletionError<String>>>;

/// Answers the actions with the replies in turn. Returns the actions, and the result if there is
/// one.
fn run<S: Workflow<String>>(
    start: Progress<S, String>,
    replies: Vec<Reply<String>>,
) -> (Vec<String>, Outcome) {
    let mut actions = vec![];
    let mut progress = start;
    for reply in replies {
        match progress {
            Progress::Await(state, action) => {
                assert!(action.admits(&reply), "{:?} for {:?}", reply, action);
                actions.push(format!("{:?}", action));
                progress = state.resume(reply);
            }
            Progress::Complete(_) => panic!("one reply too many: {:?}", reply),
        }
    }
    match progress {
        Progress::Await(_, action) => {
            actions.push(format!("{:?}", action));
            (actions, None)
        }
        Progress::Complete(result) => (actions, Some(result)),
    }
}

fn shown(actions: Vec<Action>) -> Vec<String> {
    actions.iter().map(|a| format!("{:?}", a)).collect()
}

fn url(text: &str) -> Url {
    Url::parse(text.to_string()).unwrap()
}

fn person(id: i32, name: &str, published: Timestamp) -> Person {
    Person {
        id: PersonId(id),
        name: name.to_string(),
        actor_id: url(&format!("https://home.example/u/{}", name)),
        published,
        inbox: url(&format!("https://home.example/u/{}/inbox", name)),
        shared_inbox: Some(url("https://home.example/inbox")),
    }
}

fn bob(published: Timestamp) -> Person {
    person(7, "bob", published)
}

fn automod() -> Person {
    person(99, "automod", Timestamp { secs: 0, nanos: 0 })
}

fn user(published: Timestamp) -> LocalUserView {
    LocalUserView {
        local_user: LocalUser { id: LocalUserId(3), password_encrypted: HASH.to_string() },
        person: bob(published),
    }
}

fn config(days: Option<u64>, name: Option<&str>) -> AutomodConfig {
    AutomodConfig {
        ban_deleted_persons_created_within_days: days,
        actor_username: name.map(|n| n.to_string()),
    }
}

fn start(
    delete_content: bool,
    config: AutomodConfig,
    published: Timestamp,
) -> Progress<AccountDeletion, String> {
    let data = DeleteAccount { password: PASSWORD.to_string(), delete_content };
    delete_account(&data, config, user(published))
}

fn done() -> Reply<String> {
    Reply::Done(Ok(()))
}

fn failed() -> Reply<String> {
    Reply::Done(Err("down".to_string()))
}

fn down() -> Outcome {
    Some(Err(DeletionError::Service("down".to_string())))
}

/// Published a day ago, and half a second more.
fn yesterday() -> Timestamp {
    Timestamp { secs: NOW.secs - DAY, nanos: 0 }
}

fn issuing_ban() -> Action {
    Action::Log(AutomodReport::IssuingBan {
        rule: AutomodRule::BanLocalDeletedUser,
        user: "bob".to_string(),
    })
}

fn removal(delete_content: bool, published: Timestamp) -> Vec<Action> {
    vec![
        if delete_content {
            Action::PurgeUserAccount(PersonId(7))
        } else {
            Action::DeleteAccount(PersonId(7))
        },
        Action::InvalidateLoginTokens(LocalUserId(3)),
        Action::SubmitActivity(SendActivityData::DeleteUser(bob(published), delete_content)),
    ]
}

#[test]
fn password_is_held_against_its_hash() {
    assert!(is_password(PASSWORD, HASH));
    assert!(!is_password("wrong", HASH));
    assert!(!is_password("", HASH));
}

#[test]
fn password_belongs_to_no_hash_that_cannot_be_read() {
    assert!(!is_password(PASSWORD, ""));
    assert!(!is_password(PASSWORD, PASSWORD));
    assert!(!is_password(PASSWORD, "$2b$99$EGdrhbKUv8Oc9vGiXX0HQOxSg445d458Muh7DAHskb6QbtCvdxcie"));
}

#[test]
fn wrong_password_is_an_error_and_does_nothing() {
    let data = DeleteAccount { password: "guess".to_string(), delete_content: true };
    let start = delete_account(&data, config(Some(3), Some("automod")), user(yesterday()));
    let (actions, result) = run(start, vec![]);
    assert!(actions.is_empty());
    assert_eq!(result, Some(Err(DeletionError::IncorrectLogin)));
}

#[test]
fn unreadable_hash_is_a_wrong_password() {
    let mut view = user(yesterday());
    view.local_user.password_encrypted = "plain".to_string();
    let data = DeleteAccount { password: "plain".to_string(), delete_content: false };
    let (actions, result) = run(delete_account(&data, config(None, None), view), vec![]);
    assert!(actions.is_empty());
    assert_eq!(result, Some(Err(DeletionError::IncorrectLogin)));
}

#[test]
fn verdict_on_the_password_decides() {
    let start = delete_account_if(false, false, config(None, None), user(yesterday()));
    assert_eq!(run(start, vec![]).1, Some(Err(DeletionError::IncorrectLogin)));
    let start = delete_account_if(true, false, config(None, None), user(yesterday()));
    let (actions, result) = run(start, vec![done(), done(), done()]);
    assert_eq!(actions, shown(removal(false, yesterday())));
    assert_eq!(result, Some(Ok(())));
}

#[test]
fn account_without_automod_is_removed_and_announced() {
    let (actions, result) =
        run(start(false, config(None, Some("automod")), yesterday()), vec![done(), done(), done()]);
    assert_eq!(actions, shown(removal(false, yesterday())));
    assert_eq!(result, Some(Ok(())));
}

#[test]
fn purged_account_is_never_banned() {
    let start = start(true, config(Some(3), Some("automod")), yesterday());
    let (actions, result) = run(start, vec![done(), done(), done()]);
    assert_eq!(actions, shown(removal(true, yesterday())));
    assert_eq!(result, Some(Ok(())));
}

#[test]
fn young_account_is_banned() {
    let start = start(false, config(Some(3), Some("automod")), yesterday());
    let banned = person(8, "bob", yesterday());
    let (actions, result) = run(
        start,
        vec![
            done(),
            done(),
            done(),
            Reply::Time(NOW),
            Reply::Logged,
            Reply::FoundPerson(Ok(Some(automod()))),
            Reply::Person(Ok(banned)),
            done(),
            done(),
            done(),
        ],
    );
    let mut expected = removal(false, yesterday());
    expected.push(Action::ReadClock { days_back: 3 });
    expected.push(issuing_ban());
    expected.push(Action::ReadPersonByName { name: "automod".to_string(), include_deleted: false });
    expected.push(Action::UpdatePerson(
        PersonId(7),
        PersonUpdateForm { banned: Some(true), ban_expires: Some(None) },
    ));
    expected.push(Action::RemoveUserData(PersonId(8)));
    expected.push(Action::CreateModBan(ModBanForm {
        mod_person_id: PersonId(99),
        other_person_id: PersonId(7),
        reason: Some("automod".to_string()),
        banned: Some(true),
        expires: None,
    }));
    expected.push(Action::SubmitActivity(SendActivityData::BanFromSite {
        moderator: automod(),
        banned_user: bob(yesterday()),
        reason: Some("automod".to_string()),
        remove_data: Some(true),
        ban: true,
        expires: None,
    }));
    assert_eq!(actions, shown(expected));
    assert_eq!(result, Some(Ok(())));
}

#[test]
fn old_account_is_not_banned() {
    let published = Timestamp { secs: NOW.secs - 4 * DAY, nanos: 0 };
    let start = start(false, config(Some(3), Some("automod")), published);
    let (actions, result) = run(start, vec![done(), done(), done(), Reply::Time(NOW)]);
    let mut expected = removal(false, published);
    expected.push(Action::ReadClock { days_back: 3 });
    assert_eq!(actions, shown(expected));
    assert_eq!(result, Some(Ok(())));
}

#[test]
fn account_of_exactly_the_age_is_not_banned() {
    let exact = Timestamp { secs: NOW.secs - 3 * DAY, nanos: NOW.nanos };
    let replies = || vec![done(), done(), done(), Reply::Time(NOW)];
    let (_, result) = run(start(false, config(Some(3), Some("automod")), exact), replies());
    assert_eq!(result, Some(Ok(())));
    let younger = Timestamp { nanos: NOW.nanos + 1, ..exact };
    let (actions, result) = run(start(false, config(Some(3), Some("automod")), younger), replies());
    assert_eq!(result, None);
    assert_eq!(actions.len(), 5);
}

#[test]
fn nobody_is_banned_without_a_moderator() {
    let start = start(false, config(Some(3), None), yesterday());
    let replies =
        vec![done(), done(), done(), Reply::Time(NOW), Reply::Logged, Reply::Logged];
    let (actions, result) = run(start, replies);
    let mut expected = removal(false, yesterday());
    expected.push(Action::ReadClock { days_back: 3 });
    expected.push(issuing_ban());
    expected.push(Action::Log(AutomodReport::NoAutomodUser {
        rule: AutomodRule::BanLocalDeletedUser,
    }));
    assert_eq!(actions, shown(expected));
    assert_eq!(result, Some(Ok(())));
}

#[test]
fn moderator_has_to_exist() {
    let start = start(false, config(Some(3), Some("automod")), yesterday());
    let replies = vec![
        done(),
        done(),
        done(),
        Reply::Time(NOW),
        Reply::Logged,
        Reply::FoundPerson(Ok(None)),
    ];
    assert_eq!(run(start, replies).1, Some(Err(DeletionError::CouldntFindPerson)));
}

#[test]
fn failed_ban_is_reported_as_such() {
    let start = start(false, config(Some(3), Some("automod")), yesterday());
    let replies = vec![
        done(),
        done(),
        done(),
        Reply::Time(NOW),
        Reply::Logged,
        Reply::FoundPerson(Ok(Some(automod()))),
        Reply::Person(Err("locked".to_string())),
    ];
    assert_eq!(
        run(start, replies).1,
        Some(Err(DeletionError::CouldntUpdateUser("locked".to_string())))
    );
}

#[test]
fn first_failure_ends_an_account_deletion() {
    let fresh = || start(false, config(Some(3), Some("automod")), yesterday());
    assert_eq!(run(fresh(), vec![failed()]).1, down());
    assert_eq!(run(fresh(), vec![done(), failed()]).1, down());
    assert_eq!(run(fresh(), vec![done(), done(), failed()]).1, down());
    let lost = Reply::FoundPerson(Err("down".to_string()));
    let replies = vec![done(), done(), done(), Reply::Time(NOW), Reply::Logged, lost];
    assert_eq!(run(fresh(), replies).1, down());
    for failing in 0..3 {
        let mut replies = vec![
            done(),
            done(),
            done(),
            Reply::Time(NOW),
            Reply::Logged,
            Reply::FoundPerson(Ok(Some(automod()))),
            Reply::Person(Ok(bob(yesterday()))),
        ];
        for _ in 0..failing {
            replies.push(done());
        }
        replies.push(failed());
        assert_eq!(run(fresh(), replies).1, down());
    }
}

#[test]
fn replies_have_to_fit_the_action() {
    match start(false, config(None, None), yesterday()) {
        Progress::Await(_, action) => {
            assert!(action.admits(&done()));
            assert!(action.admits(&failed()));
            assert!(!action.admits(&Reply::<String>::Time(NOW)));
            assert!(!action.admits(&Reply::<String>::FoundPerson(Ok(None))));
        }
        Progress::Complete(_) => panic!("nothing to do"),
    }
    let clock = Action::ReadClock { days_back: 3 };
    assert!(clock.admits(&Reply::<String>::Time(NOW)));
    assert!(!clock.admits(&done()));
    let forever = Action::ReadClock { days_back: u64::MAX };
    assert!(!forever.admits(&Reply::<String>::Time(NOW)));
}
