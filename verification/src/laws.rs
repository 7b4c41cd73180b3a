//! What holds of every run of a program.

use vstd::prelude::*;

use crate::actions::{ActionView, DeletionError, ReplyView};
use crate::program::{
    actions, awaits, command, conforms, continuation, remainder, success, Program,
};

verus! {

/// One more reply takes the program one more step.
pub proof fn one_reply_is_one_step<E>(
    p: Program<E>,
    replies: Seq<ReplyView<E>>,
    reply: ReplyView<E>,
)
    ensures
        remainder(p, replies.push(reply)) == continuation(remainder(p, replies), reply),
    decreases replies.len(),
{
    reveal_with_fuel(remainder, 2);
    if replies.len() > 0 {
        assert(replies.push(reply).skip(1) =~= replies.skip(1).push(reply));
        one_reply_is_one_step(continuation(p, replies[0]), replies.skip(1), reply);
    } else {
        assert(replies.push(reply).skip(1) =~= replies);
    }
}

/// `ok` holds of every action that the program can ever hand out.
pub open spec fn every_action<E>(p: Program<E>, ok: spec_fn(ActionView) -> bool) -> bool
    decreases p,
{
    match p {
        Program::Return(_) => true,
        Program::Perform(a, k) => ok(a) && forall|r: ReplyView<E>|
            every_action(#[trigger] k(r), ok),
    }
}

/// What holds of every action that a program can hand out holds of those that a run hands out.
pub proof fn every_action_of_a_run<E>(
    p: Program<E>,
    ok: spec_fn(ActionView) -> bool,
    replies: Seq<ReplyView<E>>,
)
    requires
        every_action(p, ok),
    ensures
        forall|i: int| 0 <= i < actions(p, replies).len() ==> ok(#[trigger] actions(p, replies)[i]),
    decreases replies.len(),
{
    if p is Perform && replies.len() > 0 {
        let k = p->Perform_1;
        assert(every_action(k(replies[0]), ok));
        every_action_of_a_run(k(replies[0]), ok, replies.skip(1));
        let rest = actions(k(replies[0]), replies.skip(1));
        assert forall|i: int| 0 <= i < actions(p, replies).len() implies ok(
            #[trigger] actions(p, replies)[i],
        ) by {
            if i > 0 {
                assert(actions(p, replies)[i] == rest[i - 1]);
            }
        }
    }
}

/// How the failure of an action is reported: that of the update of a person as such, that of any
/// other action as the failure of a service.
pub open spec fn failure_of<E>(a: ActionView, error: E) -> DeletionError<E> {
    if a is UpdatePerson {
        DeletionError::CouldntUpdateUser(error)
    } else {
        DeletionError::Service(error)
    }
}

/// The program has been given up because this action failed with this error.
pub open spec fn reports<E>(p: Program<E>, a: ActionView, error: E) -> bool {
    p == Program::<E>::Return(Err(failure_of(a, error)))
}

/// The error of an action that the program has been given up with, if that is how it ended.
pub open spec fn reported<E>(p: Program<E>) -> Option<E> {
    match p {
        Program::Return(Err(DeletionError::Service(e))) => Some(e),
        Program::Return(Err(DeletionError::CouldntUpdateUser(e))) => Some(e),
        _ => None,
    }
}

/// The failure of any action but the tolerated ones ends the program, with the error of the
/// action; and nothing else ends it with the error of an action.
pub open spec fn stops_on_failure<E>(
    p: Program<E>,
    tolerated: spec_fn(ActionView) -> bool,
) -> bool
    decreases p,
{
    match p {
        Program::Return(_) => true,
        Program::Perform(a, k) => forall|r: ReplyView<E>|
            {
                &&& (a.admits(r) && !tolerated(a) && r.error() is Some ==> reports(
                    k(r),
                    a,
                    r.error()->0,
                ))
                &&& (a.admits(r) && reported(k(r)) is Some ==> {
                    &&& r.error() == reported(k(r))
                    &&& reports(k(r), a, r.error()->0)
                })
                &&& stops_on_failure(#[trigger] k(r), tolerated)
            },
    }
}

/// No failure is tolerated.
pub open spec fn no_tolerance() -> spec_fn(ActionView) -> bool {
    |a: ActionView| false
}

/// In a run of a program that stops on failures, a reply that tells of one, and not of one that
/// is tolerated, is the last reply, and the run ends with its error.
pub proof fn failure_ends_the_run<E>(
    p: Program<E>,
    tolerated: spec_fn(ActionView) -> bool,
    replies: Seq<ReplyView<E>>,
    i: int,
)
    requires
        stops_on_failure(p, tolerated),
        conforms(p, replies),
        0 <= i < replies.len(),
        replies[i].error() is Some,
        !tolerated(actions(p, replies)[i]),
    ensures
        i == replies.len() - 1,
        reports(remainder(p, replies), actions(p, replies)[i], replies[i].error()->0),
    decreases replies.len(),
{
    let k = p->Perform_1;
    let rest = replies.skip(1);
    assert(stops_on_failure(k(replies[0]), tolerated));
    if i == 0 {
        assert(reports(k(replies[0]), p->Perform_0, replies[0].error()->0));
        if rest.len() > 0 {
            assert(awaits(k(replies[0]), rest[0]));
        }
        reveal_with_fuel(remainder, 2);
    } else {
        assert(rest[i - 1] == replies[i]);
        assert(actions(p, replies)[i] == actions(k(replies[0]), rest)[i - 1]) by {
            a_run_hands_out_its_actions(k(replies[0]), rest);
        }
        failure_ends_the_run(k(replies[0]), tolerated, rest, i - 1);
    }
}

/// A run of a program that stops on failures ends with the error of an action only where the last
/// reply tells of the failure of that action.
pub proof fn errors_come_from_actions<E>(
    p: Program<E>,
    tolerated: spec_fn(ActionView) -> bool,
    replies: Seq<ReplyView<E>>,
)
    requires
        stops_on_failure(p, tolerated),
        conforms(p, replies),
        p is Perform,
        reported(remainder(p, replies)) is Some,
    ensures
        replies.len() > 0,
        replies.last().error() == reported(remainder(p, replies)),
        reports(
            remainder(p, replies),
            actions(p, replies)[replies.len() - 1],
            replies.last().error()->0,
        ),
    decreases replies.len(),
{
    if replies.len() > 0 {
        let k = p->Perform_1;
        let later = k(replies[0]);
        let rest = replies.skip(1);
        assert(stops_on_failure(k(replies[0]), tolerated));
        if later is Return {
            nothing_follows_the_result(later, rest);
        } else {
            errors_come_from_actions(later, tolerated, rest);
            a_run_hands_out_its_actions(later, rest);
            assert(rest.last() == replies.last());
            assert(actions(p, replies)[replies.len() - 1] == actions(later, rest)[rest.len() - 1]);
        }
    }
}

/// Each reply in a run belongs to an action that was handed out before it.
pub proof fn a_run_hands_out_its_actions<E>(p: Program<E>, replies: Seq<ReplyView<E>>)
    requires
        conforms(p, replies),
    ensures
        actions(p, replies).len() >= replies.len(),
        forall|i: int|
            0 <= i < replies.len() ==> (#[trigger] actions(p, replies)[i]).admits(replies[i]),
    decreases replies.len(),
{
    if replies.len() > 0 {
        let rest = replies.skip(1);
        let next = continuation(p, replies[0]);
        a_run_hands_out_its_actions(next, rest);
        assert forall|i: int| 0 <= i < replies.len() implies (#[trigger] actions(
            p,
            replies,
        )[i]).admits(replies[i]) by {
            if i > 0 {
                assert(rest[i - 1] == replies[i]);
                assert(actions(p, replies)[i] == actions(next, rest)[i - 1]);
            }
        }
    }
}

/// A run of a program that has something to do, and that ends well, begins with the reply to the
/// first action and goes on as the reply decides.
pub proof fn successful_run_goes_on<E>(p: Program<E>, replies: Seq<ReplyView<E>>)
    requires
        p is Perform,
        conforms(p, replies),
        remainder(p, replies) == success::<E>(),
    ensures
        replies.len() > 0,
        awaits(p, replies[0]),
        conforms(continuation(p, replies[0]), replies.skip(1)),
        remainder(continuation(p, replies[0]), replies.skip(1)) == success::<E>(),
        actions(p, replies) == seq![p->Perform_0] + actions(
            continuation(p, replies[0]),
            replies.skip(1),
        ),
{
}

/// A program that has returned takes no replies and hands out no actions.
pub proof fn nothing_follows_the_result<E>(p: Program<E>, replies: Seq<ReplyView<E>>)
    requires
        p is Return,
    ensures
        conforms(p, replies) ==> replies.len() == 0,
        remainder(p, replies) == p,
        actions(p, replies) == Seq::<ActionView>::empty(),
    decreases replies.len(),
{
    if replies.len() > 0 {
        nothing_follows_the_result(p, replies.skip(1));
    }
}

/// A run that begins with a command and ends well goes on with what follows the command.
pub proof fn successful_command<E>(a: ActionView, next: Program<E>, replies: Seq<ReplyView<E>>)
    requires
        conforms(command(a, next), replies),
        remainder(command(a, next), replies) == success::<E>(),
    ensures
        replies.len() > 0,
        conforms(next, replies.skip(1)),
        remainder(next, replies.skip(1)) == success::<E>(),
        actions(command(a, next), replies) == seq![a] + actions(next, replies.skip(1)),
{
    let p = command(a, next);
    successful_run_goes_on(p, replies);
    if replies[0]->Done_0 is Err {
        nothing_follows_the_result(continuation(p, replies[0]), replies.skip(1));
    }
}

/// What a run hands out after its first action is what the rest of the program hands out.
pub proof fn later_action<E>(p: Program<E>, replies: Seq<ReplyView<E>>, i: int)
    requires
        0 < i < actions(p, replies).len(),
    ensures
        p is Perform,
        replies.len() > 0,
        i <= actions(continuation(p, replies[0]), replies.skip(1)).len(),
        actions(p, replies)[i] == actions(
            continuation(p, replies[0]),
            replies.skip(1),
        )[i - 1],
{
}

/// The program returns after at most this number of actions, whatever the replies.
pub open spec fn ends_within<E>(p: Program<E>, bound: nat) -> bool
    decreases bound,
{
    match p {
        Program::Return(_) => true,
        Program::Perform(_, k) => bound > 0 && forall|r: ReplyView<E>|
            ends_within(#[trigger] k(r), (bound - 1) as nat),
    }
}

/// A run of a program that returns after at most a number of actions takes at most as many
/// replies.
pub proof fn a_bounded_program_ends<E>(p: Program<E>, bound: nat, replies: Seq<ReplyView<E>>)
    requires
        ends_within(p, bound),
        conforms(p, replies),
    ensures
        replies.len() <= bound,
    decreases replies.len(),
{
    if replies.len() > 0 {
        let k = p->Perform_1;
        assert(ends_within(k(replies[0]), (bound - 1) as nat));
        a_bounded_program_ends(k(replies[0]), (bound - 1) as nat, replies.skip(1));
    }
}

} // verus!
