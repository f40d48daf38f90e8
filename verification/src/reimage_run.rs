//! What holds of every change of image from its start to its answer.
//!
//! A run is the sequence of exchanges between a flow and its caller: each
//! command that the flow issued, with the answer it got. The store is taken to
//! do what a unit of work means: an image that was set within the unit of work
//! becomes the instance's image when the unit of work is committed, and not
//! before.

use crate::dispatch::ActionView;
use crate::error::{failure, ErrorKind};
use crate::model::{ImageId, InstanceId};
use crate::reimage::{
    initial, reimage_action, reimage_step, ReimageCommandView, ReimageEvent, ReimageState,
    ReimagePhase, NO_LINKED_HOST,
};
use vstd::prelude::*;

verus! {

/// A command and the answer to it.
pub struct Exchange {
    pub command: ReimageCommandView,
    pub event: ReimageEvent,
}

/// The exchanges of a flow in state `flow` that has issued `command` and is
/// answered `events`, one after the other.
pub open spec fn exchanges(
    flow: ReimageState,
    command: ReimageCommandView,
    events: Seq<ReimageEvent>,
) -> Seq<Exchange>
    decreases events.len(),
{
    if events.len() == 0 {
        Seq::empty()
    } else {
        let next = reimage_step(flow, events.first());
        seq![Exchange { command, event: events.first() }] + exchanges(
            next.0,
            next.1,
            events.drop_first(),
        )
    }
}

/// The exchanges of the change of `instance` to `image` when the answers are
/// `events`.
pub open spec fn run(instance: InstanceId, image: ImageId, events: Seq<ReimageEvent>) -> Seq<
    Exchange,
> {
    exchanges(initial(instance, image), ReimageCommandView::OpenTransaction, events)
}

/// Whether `exchange` is a commit that the store performed.
pub open spec fn is_commit(exchange: Exchange) -> bool {
    exchange.command is Commit && exchange.event matches ReimageEvent::Committed(Ok(_))
}

/// Whether `exchange` set the image of `instance` within the unit of work.
pub open spec fn is_store(exchange: Exchange, instance: InstanceId) -> bool {
    &&& exchange.command matches ReimageCommandView::StoreImage { instance: target, .. }
    &&& target == instance
    &&& exchange.event matches ReimageEvent::ImageStored(Ok(_))
}

/// How many of `exchanges` are commits that the store performed.
pub open spec fn commits(exchanges: Seq<Exchange>) -> nat
    decreases exchanges.len(),
{
    if exchanges.len() == 0 {
        0
    } else if is_commit(exchanges.first()) {
        1 + commits(exchanges.drop_first())
    } else {
        commits(exchanges.drop_first())
    }
}

/// The image that the store holds for `instance` after `exchanges`, where it
/// held `found` before them and `staged` is the image set within the unit of
/// work and not yet committed.
pub open spec fn image_left(
    instance: InstanceId,
    found: ImageId,
    staged: Option<ImageId>,
    exchanges: Seq<Exchange>,
) -> ImageId
    decreases exchanges.len(),
{
    if exchanges.len() == 0 {
        found
    } else {
        let first = exchanges.first();
        let rest = exchanges.drop_first();
        if is_store(first, instance) {
            image_left(instance, found, Some(first.command->StoreImage_image), rest)
        } else if is_commit(first) {
            image_left(
                instance,
                match staged {
                    Some(image) => image,
                    None => found,
                },
                None,
                rest,
            )
        } else {
            image_left(instance, found, staged, rest)
        }
    }
}

/// How far a flow in `phase` has come.
pub open spec fn rank(phase: ReimagePhase) -> int {
    match phase {
        ReimagePhase::Opening => 0,
        ReimagePhase::Reading => 1,
        ReimagePhase::Storing => 2,
        ReimagePhase::Committing => 3,
        ReimagePhase::Dispatching => 4,
        ReimagePhase::Done => 5,
    }
}

/// `command` is what a flow in state `flow` has issued and waits to be
/// answered.
pub open spec fn awaits(flow: ReimageState, command: ReimageCommandView) -> bool {
    match flow.phase {
        ReimagePhase::Opening => command == ReimageCommandView::OpenTransaction,
        ReimagePhase::Reading => command == ReimageCommandView::ReadInstance(flow.instance),
        ReimagePhase::Storing => command == (ReimageCommandView::StoreImage {
            instance: flow.instance,
            image: flow.image,
        }),
        ReimagePhase::Committing => command == ReimageCommandView::Commit,
        ReimagePhase::Dispatching => command == ReimageCommandView::Dispatch(reimage_action(flow)),
        ReimagePhase::Done => command is Abort || command is Respond || command is Halt,
    }
}

/// After a step the flow waits for the answer to the command of that step, and
/// it is about the same instance and image as before.
pub proof fn lemma_step_awaits(flow: ReimageState, command: ReimageCommandView, event: ReimageEvent)
    requires
        awaits(flow, command),
    ensures
        awaits(reimage_step(flow, event).0, reimage_step(flow, event).1),
        reimage_step(flow, event).0.instance == flow.instance,
        reimage_step(flow, event).0.image == flow.image,
        rank(reimage_step(flow, event).0.phase) == rank(flow.phase) + 1 || reimage_step(
            flow,
            event,
        ).0.phase == ReimagePhase::Done,
{
}

/// The commands of a run come in one order and each at most once: the image
/// is set in the third exchange, the commit asked for in the fourth and the
/// action submitted in the fifth, counted from the start of the flow. The
/// action is submitted only when the exchange before it was a commit that the
/// store performed, and it is the reimaging of the machine bound to the
/// instance.
pub proof fn lemma_commands_in_order(
    flow: ReimageState,
    command: ReimageCommandView,
    events: Seq<ReimageEvent>,
    j: int,
)
    requires
        awaits(flow, command),
        0 <= j < events.len(),
    ensures
        exchanges(flow, command, events).len() == events.len(),
        ({
            let all = exchanges(flow, command, events);
            &&& all[j].command is StoreImage ==> j == 2 - rank(flow.phase) && all[j].command == (
            ReimageCommandView::StoreImage { instance: flow.instance, image: flow.image })
            &&& all[j].command is Commit ==> j == 3 - rank(flow.phase)
            &&& all[j].command is Dispatch ==> j == 4 - rank(flow.phase) && (j > 0 ==> is_commit(
                all[j - 1],
            ))
            &&& all[j].command is Dispatch ==> all[j].command->Dispatch_0 is Reimage
                && all[j].command->Dispatch_0->Reimage_inst_id == flow.instance
        }),
    decreases events.len(),
{
    let next = reimage_step(flow, events.first());
    let rest = events.drop_first();
    let all = exchanges(flow, command, events);
    lemma_step_awaits(flow, command, events.first());
    lemma_run_length(next.0, next.1, rest);
    if j > 0 {
        lemma_commands_in_order(next.0, next.1, rest, j - 1);
        assert(all[j] == exchanges(next.0, next.1, rest)[j - 1]);
        if j > 1 {
            assert(all[j - 1] == exchanges(next.0, next.1, rest)[j - 2]);
        } else {
            assert(exchanges(next.0, next.1, rest)[0].command == next.1);
        }
    }
}

/// A run has one exchange for each answer.
pub proof fn lemma_run_length(
    flow: ReimageState,
    command: ReimageCommandView,
    events: Seq<ReimageEvent>,
)
    ensures
        exchanges(flow, command, events).len() == events.len(),
        events.len() > 0 ==> exchanges(flow, command, events)[0] == (Exchange {
            command,
            event: events.first(),
        }),
    decreases events.len(),
{
    if events.len() > 0 {
        let next = reimage_step(flow, events.first());
        lemma_run_length(next.0, next.1, events.drop_first());
    }
}

/// What a run leaves in the store, from any state of the flow.
///
/// A flow that has not asked for the commit yet leaves the new image if the
/// store performs a commit in what follows, and the image found if it performs
/// none; it performs at most one. Once the flow is past the commit, nothing
/// that follows changes the image, and no commit follows.
pub proof fn lemma_image_left_from(
    flow: ReimageState,
    command: ReimageCommandView,
    events: Seq<ReimageEvent>,
    found: ImageId,
    staged: Option<ImageId>,
)
    requires
        awaits(flow, command),
        flow.phase == ReimagePhase::Committing ==> staged == Some(flow.image),
        rank(flow.phase) <= 2 ==> staged is None,
    ensures
        ({
            let all = exchanges(flow, command, events);
            let left = image_left(flow.instance, found, staged, all);
            &&& commits(all) <= 1
            &&& rank(flow.phase) >= 4 ==> commits(all) == 0
            &&& commits(all) == 0 ==> left == found
            &&& commits(all) == 1 ==> left == flow.image
        }),
    decreases events.len(),
{
    if events.len() > 0 {
        let next = reimage_step(flow, events.first());
        let rest = events.drop_first();
        let all = exchanges(flow, command, events);
        let first = Exchange { command, event: events.first() };
        lemma_step_awaits(flow, command, events.first());
        assert(all.first() == first);
        assert(all.drop_first() =~= exchanges(next.0, next.1, rest));
        if is_store(first, flow.instance) {
            lemma_image_left_from(next.0, next.1, rest, found, Some(flow.image));
        } else if is_commit(first) {
            lemma_image_left_from(next.0, next.1, rest, flow.image, None);
        } else {
            lemma_image_left_from(next.0, next.1, rest, found, staged);
        }
    }
}

/// The store ends a run with the image it had or with the new one, never with
/// another: with the new one exactly if it performed the commit, which it is
/// asked to do at most once, and whatever became of the action afterwards.
pub proof fn lemma_image_is_old_or_new(
    instance: InstanceId,
    image: ImageId,
    found: ImageId,
    events: Seq<ReimageEvent>,
)
    ensures
        commits(run(instance, image, events)) <= 1,
        commits(run(instance, image, events)) == 1 ==> image_left(
            instance,
            found,
            None,
            run(instance, image, events),
        ) == image,
        commits(run(instance, image, events)) == 0 ==> image_left(
            instance,
            found,
            None,
            run(instance, image, events),
        ) == found,
{
    lemma_image_left_from(
        initial(instance, image),
        ReimageCommandView::OpenTransaction,
        events,
        found,
        None,
    );
}

/// An action is submitted only after the commit, and it is the reimaging of
/// the instance's machine: where the command of an exchange is a submission,
/// it is the fifth exchange, the fourth was a commit that the store performed,
/// and the image was set and the commit asked for once each, before it.
pub proof fn lemma_dispatch_follows_commit(
    instance: InstanceId,
    image: ImageId,
    events: Seq<ReimageEvent>,
    j: int,
)
    requires
        0 <= j < events.len(),
        run(instance, image, events)[j].command is Dispatch,
    ensures
        j == 4,
        is_commit(run(instance, image, events)[3]),
        run(instance, image, events)[j].command->Dispatch_0 is Reimage,
        run(instance, image, events)[j].command->Dispatch_0->Reimage_inst_id == instance,
        forall|i: int|
            0 <= i < events.len() && i != j ==> !(#[trigger] run(
                instance,
                image,
                events,
            )[i].command is Dispatch),
{
    let start = initial(instance, image);
    lemma_commands_in_order(start, ReimageCommandView::OpenTransaction, events, j);
    assert forall|i: int| 0 <= i < events.len() && i != j implies !(#[trigger] run(
        instance,
        image,
        events,
    )[i].command is Dispatch) by {
        lemma_commands_in_order(start, ReimageCommandView::OpenTransaction, events, i);
    }
}

/// Without a machine there is no change.
///
/// When the instance that the store hands out has no machine bound to it, the
/// flow abandons the unit of work with `PreconditionFailed`. In the whole run
/// the image is never set, no commit is asked for and no action is submitted,
/// so the store ends with the image it had.
pub proof fn lemma_no_host_no_change(
    instance: InstanceId,
    image: ImageId,
    found: ImageId,
    events: Seq<ReimageEvent>,
)
    requires
        events.len() >= 2,
        events[0] matches ReimageEvent::Opened(Ok(_)),
        events[1] matches ReimageEvent::InstanceRead(Ok(row)) && row.linked_host is None,
    ensures
        reimage_step(reimage_step(initial(instance, image), events[0]).0, events[1]).1
            == ReimageCommandView::Abort(failure(ErrorKind::PreconditionFailed, NO_LINKED_HOST)),
        forall|j: int|
            0 <= j < events.len() ==> {
                let command = (#[trigger] run(instance, image, events)[j]).command;
                !(command is StoreImage) && !(command is Commit) && !(command is Dispatch)
            },
        image_left(instance, found, None, run(instance, image, events)) == found,
{
    let start = initial(instance, image);
    let open = ReimageCommandView::OpenTransaction;
    let all = run(instance, image, events);
    let first = reimage_step(start, events[0]);
    let second = reimage_step(first.0, events[1]);
    let after_one = events.drop_first();
    let after_two = after_one.drop_first();
    assert(after_one[0] == events[1]);
    lemma_run_length(start, open, events);
    lemma_run_length(first.0, first.1, after_one);
    lemma_run_length(second.0, second.1, after_two);
    assert(all =~= seq![
        Exchange { command: open, event: events[0] },
        Exchange { command: first.1, event: events[1] },
    ] + exchanges(second.0, second.1, after_two));
    assert forall|j: int| 0 <= j < events.len() implies {
        let command = (#[trigger] all[j]).command;
        !(command is StoreImage) && !(command is Commit) && !(command is Dispatch)
    } by {
        if j >= 2 {
            lemma_commands_in_order(second.0, second.1, after_two, j - 2);
            assert(all[j] == exchanges(second.0, second.1, after_two)[j - 2]);
        }
    }
    lemma_image_is_old_or_new(instance, image, found, events);
    lemma_no_commit_without_command(all);
}

/// Where no commit is asked for, none is performed.
pub proof fn lemma_no_commit_without_command(exchanges: Seq<Exchange>)
    requires
        forall|j: int| 0 <= j < exchanges.len() ==> !((#[trigger] exchanges[j]).command is Commit),
    ensures
        commits(exchanges) == 0,
    decreases exchanges.len(),
{
    if exchanges.len() > 0 {
        let rest = exchanges.drop_first();
        assert(!(exchanges[0].command is Commit));
        assert forall|j: int| 0 <= j < rest.len() implies !((#[trigger] rest[j]).command is Commit) by {
            assert(rest[j] == exchanges[j + 1]);
        }
        lemma_no_commit_without_command(rest);
    }
}

/// What is committed stays, whatever becomes of the action.
///
/// When the unit of work opens, the instance has a machine, the image is set
/// and the commit performed, the flow submits the reimaging of that machine for
/// the instance and its booking, and the store ends the run with the new
/// image: whether the engine is missing, refuses or accepts, and whatever else
/// follows.
pub proof fn lemma_commit_outlasts_dispatch(
    instance: InstanceId,
    image: ImageId,
    found: ImageId,
    events: Seq<ReimageEvent>,
)
    requires
        events.len() >= 4,
        events[0] matches ReimageEvent::Opened(Ok(_)),
        events[1] matches ReimageEvent::InstanceRead(Ok(row)) && row.linked_host is Some,
        events[2] matches ReimageEvent::ImageStored(Ok(_)),
        events[3] matches ReimageEvent::Committed(Ok(_)),
    ensures
        image_left(instance, found, None, run(instance, image, events)) == image,
        events.len() > 4 ==> run(instance, image, events)[4].command
            == ReimageCommandView::Dispatch(
            ActionView::Reimage {
                host_id: events[1]->InstanceRead_0->Ok_0.linked_host->0,
                inst_id: instance,
                agg_id: events[1]->InstanceRead_0->Ok_0.aggregate,
            },
        ),
{
    let open = ReimageCommandView::OpenTransaction;
    let s0 = initial(instance, image);
    let s1 = reimage_step(s0, events[0]);
    let s2 = reimage_step(s1.0, events[1]);
    let s3 = reimage_step(s2.0, events[2]);
    let s4 = reimage_step(s3.0, events[3]);
    let e1 = events.drop_first();
    let e2 = e1.drop_first();
    let e3 = e2.drop_first();
    let e4 = e3.drop_first();
    assert(e1[0] == events[1] && e2[0] == events[2] && e3[0] == events[3]);
    lemma_run_length(s0, open, events);
    lemma_run_length(s1.0, s1.1, e1);
    lemma_run_length(s2.0, s2.1, e2);
    lemma_run_length(s3.0, s3.1, e3);
    lemma_run_length(s4.0, s4.1, e4);
    let all = run(instance, image, events);
    let tail = exchanges(s4.0, s4.1, e4);
    assert(all =~= seq![
        Exchange { command: open, event: events[0] },
        Exchange { command: s1.1, event: events[1] },
        Exchange { command: s2.1, event: events[2] },
        Exchange { command: s3.1, event: events[3] },
    ] + tail);
    if events.len() > 4 {
        assert(all[4] == tail[0]);
    }
    lemma_commits_counted(all, 3);
    lemma_image_is_old_or_new(instance, image, found, events);
}

/// A run in which the store performed a commit counts at least one.
pub proof fn lemma_commits_counted(exchanges: Seq<Exchange>, k: int)
    requires
        0 <= k < exchanges.len(),
        is_commit(exchanges[k]),
    ensures
        commits(exchanges) >= 1,
    decreases exchanges.len(),
{
    if k > 0 {
        let rest = exchanges.drop_first();
        assert(rest[k - 1] == exchanges[k]);
        lemma_commits_counted(rest, k - 1);
    }
}

} // verus!
