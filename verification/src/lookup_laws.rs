//! What holds of every search for an object.

use vstd::prelude::*;

use crate::actions::{ActionView, DeletionError, ObjectKind, ReplyView};
use crate::laws::{nothing_follows_the_result, reported, stops_on_failure};
use crate::lookup::{found, lookup, lookup_object, search};
use crate::objects::{
    CommentView, CommunityView, DeletableObjectsView, PersonView, PostView, PrivateMessageView,
};
use crate::program::{
    actions, conforms, continuation, failure, remainder, Program,
};

verus! {

/// The kinds of object in the order in which they are searched.
pub open spec fn search_order() -> Seq<ObjectKind> {
    seq![
        ObjectKind::Community,
        ObjectKind::Person,
        ObjectKind::Post,
        ObjectKind::Comment,
        ObjectKind::PrivateMessage,
    ]
}

/// The replies tell that there are no objects of the first `n` kinds.
pub open spec fn nothing_among_first<E>(replies: Seq<ReplyView<E>>, n: int) -> bool {
    &&& n <= replies.len()
    &&& forall|i: int|
        0 <= i < n ==> found(#[trigger] search_order()[i], replies[i]) == Ok::<
            Option<DeletableObjectsView>,
            E,
        >(None)
}

proof fn search_goes_on<E>(
    ap_id: Seq<char>,
    next: spec_fn(DeletableObjectsView) -> Program<E>,
    replies: Seq<ReplyView<E>>,
    n: int,
)
    requires
        0 <= n < 5,
        nothing_among_first(replies, n),
    ensures
        remainder(lookup_object(ap_id, next), replies) == remainder(
            lookup(search_order()[n], ap_id, next),
            replies.skip(n),
        ),
    decreases n,
{
    if n == 0 {
        assert(replies.skip(0) =~= replies);
    } else {
        assert(nothing_among_first(replies, n - 1)) by {
            assert forall|i: int| 0 <= i < n - 1 implies found(
                #[trigger] search_order()[i],
                replies[i],
            ) == Ok::<Option<DeletableObjectsView>, E>(None) by {}
        }
        search_goes_on(ap_id, next, replies, n - 1);
        let rest = replies.skip(n - 1);
        assert(rest[0] == replies[n - 1]);
        assert(found(search_order()[n - 1], rest[0]) == Ok::<Option<DeletableObjectsView>, E>(
            None,
        ));
        assert(rest.skip(1) =~= replies.skip(n));
    }
}

/// The search goes on with the first object found, in the order of the kinds.
pub proof fn first_object_found_is_taken<E>(
    ap_id: Seq<char>,
    next: spec_fn(DeletableObjectsView) -> Program<E>,
    replies: Seq<ReplyView<E>>,
    n: int,
    object: DeletableObjectsView,
)
    requires
        0 <= n < 5,
        n < replies.len(),
        nothing_among_first(replies, n),
        found(search_order()[n], replies[n]) == Ok::<Option<DeletableObjectsView>, E>(Some(object)),
    ensures
        remainder(lookup_object(ap_id, next), replies) == remainder(
            next(object),
            replies.skip(n + 1),
        ),
{
    search_goes_on(ap_id, next, replies, n);
    let rest = replies.skip(n);
    assert(rest[0] == replies[n]);
    assert(rest.skip(1) =~= replies.skip(n + 1));
}

/// The search fails with `NotFound` where there is no object of any kind.
pub proof fn nothing_found_is_an_error<E>(
    ap_id: Seq<char>,
    next: spec_fn(DeletableObjectsView) -> Program<E>,
    replies: Seq<ReplyView<E>>,
)
    requires
        replies.len() == 5,
        nothing_among_first(replies, 5),
    ensures
        remainder(lookup_object(ap_id, next), replies) == failure::<E>(DeletionError::NotFound),
{
    assert(nothing_among_first(replies, 4)) by {
        assert forall|i: int| 0 <= i < 4 implies found(
            #[trigger] search_order()[i],
            replies[i],
        ) == Ok::<Option<DeletableObjectsView>, E>(None) by {}
    }
    search_goes_on(ap_id, next, replies, 4);
    let rest = replies.skip(4);
    assert(rest[0] == replies[4]);
    assert(found(search_order()[4], rest[0]) == Ok::<Option<DeletableObjectsView>, E>(None));
    reveal_with_fuel(remainder, 2);
}

/// The program is over, because there is no object of any kind, or because the search among the
/// objects of one kind, the one after the first `n`, failed.
pub open spec fn unsuccessful<E>(p: Program<E>, replies: Seq<ReplyView<E>>, n: int) -> bool {
    if n == 5 {
        replies.len() == 5 && remainder(p, replies) == failure::<E>(DeletionError::NotFound)
    } else {
        &&& n < replies.len()
        &&& replies[n].error() is Some
        &&& remainder(p, replies) == failure::<E>(
            DeletionError::Service(replies[n].error()->0),
        )
    }
}

/// Every run of a search asks for objects of the kinds in turn, and for nothing else before it
/// goes on with the one that it finds; `n` is the number of kinds of which there was none. A run
/// that has not found an object, or not yet, takes no more replies than there are kinds, and does
/// not end well.
pub proof fn a_search_asks_in_turn<E>(
    ap_id: Seq<char>,
    next: spec_fn(DeletableObjectsView) -> Program<E>,
    replies: Seq<ReplyView<E>>,
) -> (n: int)
    requires
        conforms(lookup_object(ap_id, next), replies),
    ensures
        0 <= n <= 5,
        nothing_among_first(replies, n),
        ({
            let p = lookup_object(ap_id, next);
            if n < 5 && n < replies.len() && found(search_order()[n], replies[n]) is Ok {
                let object = found(search_order()[n], replies[n])->Ok_0->Some_0;
                let rest = replies.skip(n + 1);
                &&& found(search_order()[n], replies[n]) == Ok::<
                    Option<DeletableObjectsView>,
                    E,
                >(Some(object))
                &&& conforms(next(object), rest)
                &&& remainder(p, replies) == remainder(next(object), rest)
                &&& actions(p, replies) == questions(ap_id, n + 1) + actions(next(object), rest)
            } else {
                &&& replies.len() <= 5
                &&& remainder(p, replies) is Return ==> unsuccessful(p, replies, n)
                &&& exists|m: int|
                    0 <= m <= 5 && actions(p, replies) == #[trigger] questions(ap_id, m)
            }
        }),
{
    assert(replies.skip(0) =~= replies);
    assert(questions(ap_id, 0) =~= seq![]);
    let n = a_search_asks_from(ap_id, next, replies, 0);
    n
}

/// The questions for objects of the first `n` kinds.
pub open spec fn questions(ap_id: Seq<char>, n: int) -> Seq<ActionView> {
    Seq::new(n as nat, |i: int| ActionView::ReadFromId { kind: search_order()[i], ap_id })
}

proof fn a_search_asks_from<E>(
    ap_id: Seq<char>,
    next: spec_fn(DeletableObjectsView) -> Program<E>,
    replies: Seq<ReplyView<E>>,
    n: int,
) -> (m: int)
    requires
        0 <= n < 5,
        nothing_among_first(replies, n),
        conforms(lookup(search_order()[n], ap_id, next), replies.skip(n)),
        remainder(lookup_object(ap_id, next), replies) == remainder(
            lookup(search_order()[n], ap_id, next),
            replies.skip(n),
        ),
        actions(lookup_object(ap_id, next), replies) == questions(ap_id, n) + actions(
            lookup(search_order()[n], ap_id, next),
            replies.skip(n),
        ),
    ensures
        n <= m <= 5,
        nothing_among_first(replies, m),
        ({
            let p = lookup_object(ap_id, next);
            if m < 5 && m < replies.len() && found(search_order()[m], replies[m]) is Ok {
                let object = found(search_order()[m], replies[m])->Ok_0->Some_0;
                let rest = replies.skip(m + 1);
                &&& found(search_order()[m], replies[m]) == Ok::<
                    Option<DeletableObjectsView>,
                    E,
                >(Some(object))
                &&& conforms(next(object), rest)
                &&& remainder(p, replies) == remainder(next(object), rest)
                &&& actions(p, replies) == questions(ap_id, m + 1) + actions(next(object), rest)
            } else {
                &&& replies.len() <= 5
                &&& remainder(p, replies) is Return ==> unsuccessful(p, replies, m)
                &&& exists|k: int|
                    0 <= k <= 5 && actions(p, replies) == #[trigger] questions(ap_id, k)
            }
        }),
    decreases 5 - n,
{
    let whole = lookup_object(ap_id, next);
    let p = lookup(search_order()[n], ap_id, next);
    let question = ActionView::ReadFromId { kind: search_order()[n], ap_id };
    assert(questions(ap_id, n + 1) =~= questions(ap_id, n) + seq![question]);
    let rest = replies.skip(n);
    if rest.len() == 0 {
        assert(actions(whole, replies) == questions(ap_id, n + 1));
        n
    } else {
        assert(rest[0] == replies[n]);
        assert(rest.skip(1) =~= replies.skip(n + 1));
        let later = continuation(p, rest[0]);
        assert(actions(whole, replies) =~= questions(ap_id, n + 1) + actions(
            later,
            replies.skip(n + 1),
        ));
        match found(search_order()[n], replies[n]) {
            Ok(Some(_)) => n,
            Ok(None) if n < 4 => a_search_asks_from(ap_id, next, replies, n + 1),
            _ => {
                nothing_follows_the_result(later, replies.skip(n + 1));
                assert(actions(whole, replies) =~= questions(ap_id, n + 1));
                if found(search_order()[n], replies[n]) is Ok {
                    n + 1
                } else {
                    n
                }
            },
        }
    }
}

/// A search stops on failures if what follows it does, and is not an error of its own.
pub proof fn lookup_stops_on_failure<E>(
    ap_id: Seq<char>,
    next: spec_fn(DeletableObjectsView) -> Program<E>,
    tolerated: spec_fn(ActionView) -> bool,
)
    requires
        forall|object: DeletableObjectsView|
            stops_on_failure(#[trigger] next(object), tolerated) && reported(next(object)) is None,
    ensures
        stops_on_failure(lookup_object(ap_id, next), tolerated),
{
    reveal_with_fuel(stops_on_failure, 2);
    let nothing = failure::<E>(DeletionError::NotFound);
    let private_message = search(ObjectKind::PrivateMessage, ap_id, next, nothing);
    let comment = search(ObjectKind::Comment, ap_id, next, private_message);
    let post = search(ObjectKind::Post, ap_id, next, comment);
    let person = search(ObjectKind::Person, ap_id, next, post);
    assert(stops_on_failure(private_message, tolerated));
    assert(stops_on_failure(comment, tolerated));
    assert(stops_on_failure(post, tolerated));
    assert(stops_on_failure(person, tolerated));
}

/// The kinds follow one another from the community to the private message, and none is left out.
pub proof fn every_kind_is_searched(i: int)
    ensures
        0 <= i < 4 ==> search_order()[i].successor() == Some(search_order()[i + 1]),
        ObjectKind::PrivateMessage.successor() is None,
        forall|kind: ObjectKind| search_order().contains(kind),
{
    assert forall|kind: ObjectKind| search_order().contains(kind) by {
        let order = search_order();
        match kind {
            ObjectKind::Community => assert(order[0] == kind),
            ObjectKind::Person => assert(order[1] == kind),
            ObjectKind::Post => assert(order[2] == kind),
            ObjectKind::Comment => assert(order[3] == kind),
            ObjectKind::PrivateMessage => assert(order[4] == kind),
        }
    }
}

/// What a search among the objects of one kind finds is what the reply holds: the object, nothing,
/// or the failure.
pub proof fn what_a_reply_holds_is_found<E>(
    community: CommunityView,
    person: PersonView,
    post: PostView,
    comment: CommentView,
    pm: PrivateMessageView,
    error: E,
)
    ensures
        found(ObjectKind::Community, ReplyView::<E>::FoundCommunity(Ok(Some(community)))) == Ok::<
            Option<DeletableObjectsView>,
            E,
        >(Some(DeletableObjectsView::Community(community))),
        found(ObjectKind::Person, ReplyView::<E>::FoundPerson(Ok(Some(person)))) == Ok::<
            Option<DeletableObjectsView>,
            E,
        >(Some(DeletableObjectsView::Person(person))),
        found(ObjectKind::Post, ReplyView::<E>::FoundPost(Ok(Some(post)))) == Ok::<
            Option<DeletableObjectsView>,
            E,
        >(Some(DeletableObjectsView::Post(post))),
        found(ObjectKind::Comment, ReplyView::<E>::FoundComment(Ok(Some(comment)))) == Ok::<
            Option<DeletableObjectsView>,
            E,
        >(Some(DeletableObjectsView::Comment(comment))),
        found(ObjectKind::PrivateMessage, ReplyView::<E>::FoundPrivateMessage(Ok(Some(pm))))
            == Ok::<Option<DeletableObjectsView>, E>(
            Some(DeletableObjectsView::PrivateMessage(pm)),
        ),
        found(ObjectKind::Community, ReplyView::<E>::FoundCommunity(Ok(None))) == Ok::<
            Option<DeletableObjectsView>,
            E,
        >(None),
        found(ObjectKind::Person, ReplyView::<E>::FoundPerson(Ok(None))) == Ok::<
            Option<DeletableObjectsView>,
            E,
        >(None),
        found(ObjectKind::Post, ReplyView::<E>::FoundPost(Ok(None))) == Ok::<
            Option<DeletableObjectsView>,
            E,
        >(None),
        found(ObjectKind::Comment, ReplyView::<E>::FoundComment(Ok(None))) == Ok::<
            Option<DeletableObjectsView>,
            E,
        >(None),
        found(ObjectKind::PrivateMessage, ReplyView::<E>::FoundPrivateMessage(Ok(None))) == Ok::<
            Option<DeletableObjectsView>,
            E,
        >(None),
        found(ObjectKind::Community, ReplyView::FoundCommunity(Err(error))) == Err::<
            Option<DeletableObjectsView>,
            E,
        >(error),
        found(ObjectKind::Person, ReplyView::FoundPerson(Err(error))) == Err::<
            Option<DeletableObjectsView>,
            E,
        >(error),
        found(ObjectKind::Post, ReplyView::FoundPost(Err(error))) == Err::<
            Option<DeletableObjectsView>,
            E,
        >(error),
        found(ObjectKind::Comment, ReplyView::FoundComment(Err(error))) == Err::<
            Option<DeletableObjectsView>,
            E,
        >(error),
        found(ObjectKind::PrivateMessage, ReplyView::FoundPrivateMessage(Err(error))) == Err::<
            Option<DeletableObjectsView>,
            E,
        >(error),
{
}

} // verus!
