//! Dialogues: the actions that a program hands out, each with the reply to it, and what they lead
//! to.

use vstd::prelude::*;

use crate::actions::{Action, ActionView, DeletionError, ObjectKind, ReplyView};
use crate::clock::{days_before_is_representable, happened_within};
use crate::laws::{a_run_hands_out_its_actions, nothing_follows_the_result};
use crate::lookup::{found, lookup_object, search};
use crate::lookup_laws::{a_search_asks_in_turn, questions, search_order};
use crate::objects::{
    CommentView, CommunityView, DeletableObjectsView, PersonView, PostView, PrivateMessageView,
    Timestamp,
};
use crate::program::{
    actions, awaits, begins_with, conforms, continuation, failure, remainder, success, Plan,
    Program, Progress,
};

verus! {

/// The program hands out the action of the first line, takes the reply in that line, and so on
/// through all lines; and what is left of it is `end`.
pub open spec fn dialogue<E>(
    p: Program<E>,
    lines: Seq<(ActionView, ReplyView<E>)>,
    end: Program<E>,
) -> bool
    decreases lines.len(),
{
    if lines.len() == 0 {
        p == end
    } else {
        match p {
            Program::Return(_) => false,
            Program::Perform(a, k) => {
                &&& a == lines[0].0
                &&& a.admits(lines[0].1)
                &&& dialogue(k(lines[0].1), lines.skip(1), end)
            },
        }
    }
}

/// One dialogue can follow another.
pub proof fn dialogues_can_be_joined<E>(
    p: Program<E>,
    first: Seq<(ActionView, ReplyView<E>)>,
    middle: Program<E>,
    second: Seq<(ActionView, ReplyView<E>)>,
    end: Program<E>,
)
    requires
        dialogue(p, first, middle),
        dialogue(middle, second, end),
    ensures
        dialogue(p, first + second, end),
    decreases first.len(),
{
    if first.len() == 0 {
        assert(first + second =~= second);
    } else {
        let k = p->Perform_1;
        dialogues_can_be_joined(k(first[0].1), first.skip(1), middle, second, end);
        assert((first + second).skip(1) =~= first.skip(1) + second);
    }
}

/// A dialogue is a run: its replies are those that the program waits for, its actions those that
/// are handed out, and its end is what is left.
pub proof fn a_dialogue_is_a_run<E>(
    p: Program<E>,
    lines: Seq<(ActionView, ReplyView<E>)>,
    end: Program<E>,
    replies: Seq<ReplyView<E>>,
)
    requires
        dialogue(p, lines, end),
        replies.len() == lines.len(),
        forall|i: int| 0 <= i < lines.len() ==> #[trigger] replies[i] == lines[i].1,
    ensures
        conforms(p, replies),
        remainder(p, replies) == end,
        actions(p, replies).len() >= lines.len(),
        forall|i: int|
            0 <= i < lines.len() ==> #[trigger] actions(p, replies)[i] == lines[i].0,
    decreases lines.len(),
{
    if lines.len() > 0 {
        let k = p->Perform_1;
        let rest = replies.skip(1);
        assert forall|i: int| 0 <= i < lines.skip(1).len() implies #[trigger] rest[i]
            == lines.skip(1)[i].1 by {
            assert(rest[i] == replies[i + 1]);
        }
        a_dialogue_is_a_run(k(lines[0].1), lines.skip(1), end, rest);
        assert forall|i: int| 0 <= i < lines.len() implies #[trigger] actions(p, replies)[i]
            == lines[i].0 by {
            if i > 0 {
                assert(actions(p, replies)[i] == actions(k(replies[0]), rest)[i - 1]);
                assert(lines.skip(1)[i - 1] == lines[i]);
            }
        }
    }
}

/// A reply takes a program to what the program says for it, and a program waits for the replies
/// that its action admits.
pub proof fn a_reply_decides<E>(
    a: ActionView,
    k: spec_fn(ReplyView<E>) -> Program<E>,
    reply: ReplyView<E>,
    result: Result<(), DeletionError<E>>,
)
    ensures
        continuation(Program::Perform(a, k), reply) == k(reply),
        awaits(Program::Perform(a, k), reply) == a.admits(reply),
        !awaits(Program::<E>::Return(result), reply),
{
}

/// Success and failure are results.
pub proof fn success_and_failure_are_results<E>(error: DeletionError<E>)
    ensures
        success::<E>() == Program::<E>::Return(Ok(())),
        failure(error) == Program::<E>::Return(Err(error)),
{
}

/// What a deletion hands out is the action that comes next; and once it is over, its result is the
/// one that it gives.
pub proof fn what_is_handed_out_comes_next<S: Plan<E>, E>(
    state: S,
    action: Action,
    result: Result<(), DeletionError<E>>,
)
    ensures
        Progress::<S, E>::Await(state, action).program() == state.program(),
        Progress::<S, E>::Await(state, action).well_formed() <==> (state.program()
            matches Program::Perform(a, _) && a == action@),
        Progress::<S, E>::Complete(result).program() == Program::<E>::Return(result),
        begins_with(state.program(), action@) <==> (state.program() matches Program::Perform(a, _)
            && a == action@),
{
}

/// The time is one that can be held, and so is the one this number of days before it. The limits
/// are the first and the last second of the years -262143 and 262142.
pub open spec fn can_be_set_back(now: Timestamp, days: u64) -> bool {
    &&& -8_334_601_228_800 <= now.secs <= 8_210_266_876_799
    &&& now.nanos < 1_000_000_000 || (now.nanos < 2_000_000_000 && now.secs % 60 == 59)
    &&& now.secs >= 86_400 * days - 8_334_601_228_800
}

/// The actions that yield something, and the one that reports, take the replies that hold it; all
/// others can only be done or fail.
pub proof fn replies_that_fit<E>(
    a: ActionView,
    done: Result<(), E>,
    community: Result<Option<CommunityView>, E>,
    person: Result<Option<PersonView>, E>,
    post: Result<Option<PostView>, E>,
    comment: Result<Option<CommentView>, E>,
    private_message: Result<Option<PrivateMessageView>, E>,
    reply: ReplyView<E>,
)
    ensures
        match a {
            ActionView::ReadFromId { kind, .. } => match kind {
                ObjectKind::Community => a.admits(ReplyView::FoundCommunity(community)),
                ObjectKind::Person => a.admits(ReplyView::FoundPerson(person)),
                ObjectKind::Post => a.admits(ReplyView::FoundPost(post)),
                ObjectKind::Comment => a.admits(ReplyView::FoundComment(comment)),
                ObjectKind::PrivateMessage => a.admits(
                    ReplyView::FoundPrivateMessage(private_message),
                ),
            },
            ActionView::ReadPerson(_) => a.admits(ReplyView::FoundPerson(person)),
            ActionView::ReadPersonByName { .. } => a.admits(ReplyView::FoundPerson(person)),
            ActionView::ReadLocalUserByName(_) => a.admits(ReplyView::FoundPerson(person)),
            ActionView::Dereference(_) => a.admits(reply) == reply is Person,
            ActionView::UpdatePerson(_, _) => a.admits(reply) == reply is Person,
            ActionView::ReadActivityCommunity(_) => a.admits(reply) == reply is Community,
            ActionView::ListLocalCommunityIds(_) => a.admits(reply) == reply is CommunityIds,
            ActionView::NewDelete(_) => a.admits(reply) == reply is NewDelete,
            ActionView::NewUndoDelete(_) => a.admits(reply) == reply is NewUndoDelete,
            ActionView::Log(_) => a.admits(reply) == (reply == ReplyView::<E>::Logged),
            ActionView::ReadClock { days_back } => a.admits(reply) == (reply
                matches ReplyView::Time(now) && can_be_set_back(now, days_back)),
            _ => a.admits(ReplyView::Done(done)) && (a.admits(reply) ==> reply is Done),
        },
{
}

/// Time can be set back by a number of days exactly where the time and the earlier one can be
/// held.
pub proof fn the_limits_of_time(now: Timestamp, days: u64)
    ensures
        days_before_is_representable(now, days) == can_be_set_back(now, days),
        now.is_valid() == can_be_set_back(now, 0),
{
}

/// It takes less than this number of days, of 86 400 seconds each, from `published` to `now`.
pub open spec fn is_younger(published: Timestamp, now: Timestamp, days: u64) -> bool {
    ||| published.secs + 86_400 * days > now.secs
    ||| published.secs + 86_400 * days == now.secs && published.nanos > now.nanos
}

/// Something happened less than a number of days ago exactly where it takes less than these days
/// to get from there to now; in nanoseconds, where neither time is within a leap second.
pub proof fn what_it_is_to_be_young(published: Timestamp, now: Timestamp, days: u64)
    ensures
        happened_within(published, now, days) == is_younger(published, now, days),
        published.nanos < 1_000_000_000 && now.nanos < 1_000_000_000 ==> happened_within(
            published,
            now,
            days,
        ) == ((published.secs + 86_400 * days) * 1_000_000_000 + published.nanos > now.secs
            * 1_000_000_000 + now.nanos),
        published.is_after(now) == is_younger(published, now, 0),
{
}

/// The replies to the search for an object that exists, with the questions that they answer.
pub open spec fn finding<E>(ap_id: Seq<char>, object: DeletableObjectsView) -> Seq<
    (ActionView, ReplyView<E>),
> {
    let community = ActionView::ReadFromId { kind: ObjectKind::Community, ap_id };
    let person = ActionView::ReadFromId { kind: ObjectKind::Person, ap_id };
    let post = ActionView::ReadFromId { kind: ObjectKind::Post, ap_id };
    let comment = ActionView::ReadFromId { kind: ObjectKind::Comment, ap_id };
    let private_message = ActionView::ReadFromId { kind: ObjectKind::PrivateMessage, ap_id };
    match object {
        DeletableObjectsView::Community(c) => seq![
            (community, ReplyView::FoundCommunity(Ok(Some(c)))),
        ],
        DeletableObjectsView::Person(p) => seq![
            (community, ReplyView::FoundCommunity(Ok(None))),
            (person, ReplyView::FoundPerson(Ok(Some(p)))),
        ],
        DeletableObjectsView::Post(p) => seq![
            (community, ReplyView::FoundCommunity(Ok(None))),
            (person, ReplyView::FoundPerson(Ok(None))),
            (post, ReplyView::FoundPost(Ok(Some(p)))),
        ],
        DeletableObjectsView::Comment(c) => seq![
            (community, ReplyView::FoundCommunity(Ok(None))),
            (person, ReplyView::FoundPerson(Ok(None))),
            (post, ReplyView::FoundPost(Ok(None))),
            (comment, ReplyView::FoundComment(Ok(Some(c)))),
        ],
        DeletableObjectsView::PrivateMessage(p) => seq![
            (community, ReplyView::FoundCommunity(Ok(None))),
            (person, ReplyView::FoundPerson(Ok(None))),
            (post, ReplyView::FoundPost(Ok(None))),
            (comment, ReplyView::FoundComment(Ok(None))),
            (private_message, ReplyView::FoundPrivateMessage(Ok(Some(p)))),
        ],
    }
}

/// The replies to the search for an object that does not exist, with the questions that they
/// answer.
pub open spec fn finding_nothing<E>(ap_id: Seq<char>) -> Seq<(ActionView, ReplyView<E>)> {
    seq![
        (
            ActionView::ReadFromId { kind: ObjectKind::Community, ap_id },
            ReplyView::FoundCommunity(Ok(None)),
        ),
        (
            ActionView::ReadFromId { kind: ObjectKind::Person, ap_id },
            ReplyView::FoundPerson(Ok(None)),
        ),
        (ActionView::ReadFromId { kind: ObjectKind::Post, ap_id }, ReplyView::FoundPost(Ok(None))),
        (
            ActionView::ReadFromId { kind: ObjectKind::Comment, ap_id },
            ReplyView::FoundComment(Ok(None)),
        ),
        (
            ActionView::ReadFromId { kind: ObjectKind::PrivateMessage, ap_id },
            ReplyView::FoundPrivateMessage(Ok(None)),
        ),
    ]
}

/// A search for an object that exists goes on with that object.
pub proof fn an_object_is_found<E>(
    ap_id: Seq<char>,
    next: spec_fn(DeletableObjectsView) -> Program<E>,
    object: DeletableObjectsView,
)
    ensures
        dialogue(lookup_object(ap_id, next), finding(ap_id, object), next(object)),
{
    reveal_with_fuel(dialogue, 6);
}

/// A search for an object that does not exist ends with `NotFound`.
pub proof fn no_object_is_found<E>(
    ap_id: Seq<char>,
    next: spec_fn(DeletableObjectsView) -> Program<E>,
)
    ensures
        dialogue(
            lookup_object(ap_id, next),
            finding_nothing(ap_id),
            Program::<E>::Return(Err(DeletionError::NotFound)),
        ),
{
    reveal_with_fuel(dialogue, 6);
}

/// Why a program is given up with an error: the last action failed with it; or a person who has to
/// exist was not found; or there is no object of the last kind that was searched.
pub open spec fn cause<E>(a: ActionView, reply: ReplyView<E>, error: DeletionError<E>) -> bool {
    match error {
        DeletionError::Service(e) => reply.error() == Some(e) && !(a is UpdatePerson),
        DeletionError::CouldntUpdateUser(e) => reply.error() == Some(e) && a is UpdatePerson,
        DeletionError::CouldntFindPerson => {
            &&& reply == ReplyView::<E>::FoundPerson(Ok(None))
            &&& a is ReadPerson || a is ReadPersonByName || a is ReadLocalUserByName
        },
        DeletionError::NotFound => {
            &&& reply == ReplyView::<E>::FoundPrivateMessage(Ok(None))
            &&& a is ReadFromId
        },
        _ => false,
    }
}

/// The program is never given up but for one of the causes.
pub open spec fn fails_for_causes<E>(
    p: Program<E>,
    causes: spec_fn(ActionView, ReplyView<E>, DeletionError<E>) -> bool,
) -> bool
    decreases p,
{
    match p {
        Program::Return(_) => true,
        Program::Perform(a, k) => forall|r: ReplyView<E>|
            {
                &&& (a.admits(r) ==> (k(r) matches Program::Return(Err(e)) ==> causes(a, r, e)))
                &&& fails_for_causes(#[trigger] k(r), causes)
            },
    }
}

/// A run that ends with an error has a cause in its last reply.
pub proof fn errors_have_causes<E>(
    p: Program<E>,
    causes: spec_fn(ActionView, ReplyView<E>, DeletionError<E>) -> bool,
    replies: Seq<ReplyView<E>>,
    error: DeletionError<E>,
)
    requires
        fails_for_causes(p, causes),
        p is Perform,
        conforms(p, replies),
        remainder(p, replies) == Program::<E>::Return(Err(error)),
    ensures
        replies.len() > 0,
        causes(actions(p, replies)[replies.len() - 1], replies.last(), error),
    decreases replies.len(),
{
    if replies.len() > 0 {
        let k = p->Perform_1;
        let later = k(replies[0]);
        let rest = replies.skip(1);
        assert(fails_for_causes(k(replies[0]), causes));
        if later is Return {
            nothing_follows_the_result(later, rest);
        } else {
            errors_have_causes(later, causes, rest, error);
            a_run_hands_out_its_actions(later, rest);
            assert(rest.last() == replies.last());
            assert(actions(p, replies)[replies.len() - 1] == actions(later, rest)[rest.len() - 1]);
        }
    }
}

/// The causes for which a program is given up after an object was found: not that none was.
pub open spec fn later_cause<E>(
    a: ActionView,
    reply: ReplyView<E>,
    error: DeletionError<E>,
) -> bool {
    cause(a, reply, error) && error != DeletionError::<E>::NotFound
}

/// A search is given up for one of the causes only, if what follows it is.
pub proof fn a_search_fails_for_causes<E>(
    ap_id: Seq<char>,
    next: spec_fn(DeletableObjectsView) -> Program<E>,
    causes: spec_fn(ActionView, ReplyView<E>, DeletionError<E>) -> bool,
)
    requires
        forall|o: DeletableObjectsView|
            fails_for_causes(#[trigger] next(o), causes) && next(o) is Perform,
        forall|a: ActionView, r: ReplyView<E>, e: DeletionError<E>|
            a is ReadFromId && a.admits(r) && cause(a, r, e) ==> #[trigger] causes(a, r, e),
    ensures
        fails_for_causes(lookup_object(ap_id, next), causes),
{
    reveal_with_fuel(fails_for_causes, 2);
    let nothing = failure::<E>(DeletionError::NotFound);
    let private_message = search(ObjectKind::PrivateMessage, ap_id, next, nothing);
    let comment = search(ObjectKind::Comment, ap_id, next, private_message);
    let post = search(ObjectKind::Post, ap_id, next, comment);
    let person = search(ObjectKind::Person, ap_id, next, post);
    assert(fails_for_causes(private_message, causes));
    assert(fails_for_causes(comment, causes));
    assert(fails_for_causes(post, causes));
    assert(fails_for_causes(person, causes));
}

/// A search ends with `NotFound` exactly where there is no object of any kind, provided that what
/// follows it does not.
pub proof fn not_found_means_that_nothing_was_found<E>(
    ap_id: Seq<char>,
    next: spec_fn(DeletableObjectsView) -> Program<E>,
    causes: spec_fn(ActionView, ReplyView<E>, DeletionError<E>) -> bool,
    replies: Seq<ReplyView<E>>,
)
    requires
        forall|o: DeletableObjectsView|
            fails_for_causes(#[trigger] next(o), causes) && next(o) is Perform,
        forall|a: ActionView, r: ReplyView<E>|
            !(#[trigger] causes(a, r, DeletionError::<E>::NotFound)),
        conforms(lookup_object(ap_id, next), replies),
    ensures
        remainder(lookup_object(ap_id, next), replies) == Program::<E>::Return(
            Err(DeletionError::NotFound),
        ) <==> replies == seq![
            ReplyView::<E>::FoundCommunity(Ok(None)),
            ReplyView::FoundPerson(Ok(None)),
            ReplyView::FoundPost(Ok(None)),
            ReplyView::FoundComment(Ok(None)),
            ReplyView::FoundPrivateMessage(Ok(None)),
        ],
{
    let p = lookup_object(ap_id, next);
    let none = seq![
        ReplyView::<E>::FoundCommunity(Ok(None)),
        ReplyView::FoundPerson(Ok(None)),
        ReplyView::FoundPost(Ok(None)),
        ReplyView::FoundComment(Ok(None)),
        ReplyView::FoundPrivateMessage(Ok(None)),
    ];
    if replies == none {
        no_object_is_found(ap_id, next);
        let end = Program::<E>::Return(Err(DeletionError::NotFound));
        a_dialogue_is_a_run(p, finding_nothing(ap_id), end, replies);
    }
    if remainder(p, replies) == Program::<E>::Return(Err(DeletionError::NotFound)) {
        let n = a_search_asks_in_turn(ap_id, next, replies);
        if n < 5 && n < replies.len() && found(search_order()[n], replies[n]) is Ok {
            let o = found(search_order()[n], replies[n])->Ok_0->Some_0;
            errors_have_causes(next(o), causes, replies.skip(n + 1), DeletionError::NotFound);
        } else {
            a_run_hands_out_its_actions(p, replies);
            let m = choose|m: int|
                0 <= m <= 5 && actions(p, replies) == #[trigger] questions(ap_id, m);
            assert(actions(p, replies) == questions(ap_id, m));
            assert forall|i: int| 0 <= i < 5 implies replies[i] == none[i] by {
                assert(actions(p, replies)[i].admits(replies[i]));
                assert(actions(p, replies)[i] == questions(ap_id, m)[i]);
                assert(found(search_order()[i], replies[i]) == Ok::<
                    Option<DeletableObjectsView>,
                    E,
                >(None));
            }
            assert(replies =~= none);
        }
    }
}

} // verus!
