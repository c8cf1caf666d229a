//! Behavior tree leaves, and the loop in which an actor takes its frames.

use vstd::prelude::*;
use crate::frame::FrameRequest;
use crate::identity::ActorId;
use crate::text::same_text;
use crate::time::Span;

verus! {

/// What a behavior node answers to a tick.
#[derive(Clone, Copy, Debug, PartialEq, Eq, Structural)]
pub enum BehaviorStatus {
    Success,
    Failure,
    Running,
}

/// The message that drives a behavior node: one evaluation of it.
#[derive(Clone, Copy, Debug, PartialEq, Eq, Structural)]
pub struct BehaviorTick;

/// Waits for a specified duration, then succeeds.
#[derive(Clone, Copy, Debug, PartialEq, Eq, Structural)]
pub struct Wait {
    pub duration: Span,
}

/// A leaf of a behavior tree: the actor around a node that does work.
#[derive(Clone, Copy, Debug)]
pub struct ActionBehavior<N> {
    pub node: N,
}

/// What a leaf does with one tick: it sleeps, then answers.
#[derive(Clone, Copy, Debug, PartialEq, Eq, Structural)]
pub struct TickPlan {
    /// How long to sleep before answering.
    pub sleep: Span,
    /// The answer.
    pub status: BehaviorStatus,
}

/// What an actor does with what its stream of incoming frames handed over.
#[derive(Clone, Copy, Debug, PartialEq, Eq, Structural)]
pub enum Dispatch {
    /// A frame with a message that the actor handles: handle it and answer.
    Handle,
    /// A frame with a message that the actor does not know: pass over it.
    Skip,
    /// The stream ended or broke: the actor's loop ends without an error.
    Stop,
}

/// What an actor that handles only messages tagged `tag` does with
/// `received`.
pub open spec fn dispatch_of<E>(received: Option<Result<FrameRequest, E>>, tag: Seq<char>) -> Dispatch {
    match received {
        Some(Ok(frame)) => if frame@.message_tag == tag {
            Dispatch::Handle
        } else {
            Dispatch::Skip
        },
        _ => Dispatch::Stop,
    }
}

/// One turn of the loop of an actor that handles only messages tagged
/// `tag`: what to do with `received`, which is what the stream of incoming
/// frames handed over (`None` at its end).
pub fn dispatch<E>(received: &Option<Result<FrameRequest, E>>, tag: &str) -> (turn: Dispatch)
    ensures
        turn == dispatch_of(*received, tag@),
{
    match received {
        Some(Ok(frame)) => {
            if same_text(frame.message_tag.as_str(), tag) {
                Dispatch::Handle
            } else {
                Dispatch::Skip
            }
        },
        _ => Dispatch::Stop,
    }
}

/// How the loop goes on once a frame was handled and answered: `None` to
/// take the next frame, or the error that ends the loop. An error of the
/// handler has gone to the sender as the terminal frame and does not end
/// the loop; `answered` is how the writing of the answer ended.
pub fn after_answer<E>(answered: Result<(), E>) -> (end: Option<E>)
    ensures
        match answered {
            Ok(_) => end.is_none(),
            Err(error) => end == Some(error),
        },
{
    match answered {
        Ok(_) => None,
        Err(error) => Some(error),
    }
}

impl Wait {
    /// A node that waits for `duration`.
    pub fn new(duration: Span) -> (wait: Wait)
        ensures
            wait.duration == duration,
    {
        Wait { duration }
    }
}

impl ActionBehavior<Wait> {
    /// Handles one tick: sleep for the node's duration, then succeed.
    pub fn handle(&self, tick: &BehaviorTick) -> (plan: TickPlan)
        ensures
            plan.sleep == self.node.duration,
            plan.status == BehaviorStatus::Success,
    {
        TickPlan { sleep: self.node.duration, status: BehaviorStatus::Success }
    }

    /// One turn of the leaf's loop. The leaf handles ticks, which are
    /// tagged `tick_tag`, and passes over every other message; it runs
    /// until its stream of incoming frames ends or breaks. For a tick the
    /// turn brings the plan by which it is handled.
    pub fn start<E>(&self, received: &Option<Result<FrameRequest, E>>, tick_tag: &str) -> (turn: (
        Dispatch,
        Option<TickPlan>,
    ))
        ensures
            turn.0 == dispatch_of(*received, tick_tag@),
            turn.0 == Dispatch::Handle ==> turn.1 == Some(
                TickPlan { sleep: self.node.duration, status: BehaviorStatus::Success },
            ),
            turn.0 != Dispatch::Handle ==> turn.1.is_none(),
    {
        let turn = dispatch(received, tick_tag);
        match turn {
            Dispatch::Handle => (turn, Some(self.handle(&BehaviorTick))),
            _ => (turn, None),
        }
    }
}

/// The decorator that turns its child's answer around.
#[derive(Clone, Copy, Debug, PartialEq, Eq, Structural)]
pub struct Invert;

/// The composite that succeeds when all its children do, one after the
/// other.
#[derive(Clone, Copy, Debug, PartialEq, Eq, Structural)]
pub struct Sequence;

/// The composite that succeeds when one of its children does, tried one
/// after the other.
#[derive(Clone, Copy, Debug, PartialEq, Eq, Structural)]
pub struct Fallback;

/// A node with exactly one child: the actor that forwards each tick to the
/// child and transforms the child's answer.
#[derive(Debug)]
pub struct DecoratorBehavior<N> {
    pub node: N,
    pub child: ActorId,
}

/// A node with an ordered list of children: the actor that forwards each
/// tick to its children and combines their answers.
#[derive(Debug)]
pub struct CompositeBehavior<N> {
    pub node: N,
    pub children: Vec<ActorId>,
}

/// What a composite does next while it handles a tick.
#[derive(Clone, Copy, Debug, PartialEq, Eq, Structural)]
pub enum CompositeStep {
    /// Forward the tick to the child with this index and wait for its
    /// answer.
    Tick(usize),
    /// Answer the tick with this status.
    Done(BehaviorStatus),
}

/// A status turned around: success for failure and failure for success; a
/// running child is still running.
pub open spec fn inverted(status: BehaviorStatus) -> BehaviorStatus {
    match status {
        BehaviorStatus::Success => BehaviorStatus::Failure,
        BehaviorStatus::Failure => BehaviorStatus::Success,
        BehaviorStatus::Running => BehaviorStatus::Running,
    }
}

/// The answer of a composite whose children, ticked in order, would answer
/// `statuses`: the answer of the first child that does not answer `pass`,
/// and `pass` if every child does. A sequence passes over successes, a
/// fallback over failures.
pub open spec fn first_other_than(pass: BehaviorStatus, statuses: Seq<BehaviorStatus>) -> BehaviorStatus
    decreases statuses.len(),
{
    if statuses.len() == 0 {
        pass
    } else if statuses[0] != pass {
        statuses[0]
    } else {
        first_other_than(pass, statuses.subrange(1, statuses.len() as int))
    }
}

/// The answer of a sequence whose children would answer `statuses`.
pub open spec fn sequence_status(statuses: Seq<BehaviorStatus>) -> BehaviorStatus {
    first_other_than(BehaviorStatus::Success, statuses)
}

/// The answer of a fallback whose children would answer `statuses`.
pub open spec fn fallback_status(statuses: Seq<BehaviorStatus>) -> BehaviorStatus {
    first_other_than(BehaviorStatus::Failure, statuses)
}

/// What a composite of `children` children that passes over `pass` does
/// at the start of a tick.
pub open spec fn composite_begin(pass: BehaviorStatus, children: nat) -> CompositeStep {
    if children == 0 {
        CompositeStep::Done(pass)
    } else {
        CompositeStep::Tick(0)
    }
}

/// What a composite of `children` children that passes over `pass` does
/// once the child with index `child` answered `status`.
pub open spec fn composite_next(
    pass: BehaviorStatus,
    children: nat,
    child: nat,
    status: BehaviorStatus,
) -> CompositeStep {
    if status != pass {
        CompositeStep::Done(status)
    } else if child + 1 < children {
        CompositeStep::Tick((child + 1) as usize)
    } else {
        CompositeStep::Done(pass)
    }
}

/// The answer that a composite arrives at when it goes step by step from
/// the child with index `child` on, its children answering `statuses`.
pub open spec fn composite_run(
    pass: BehaviorStatus,
    statuses: Seq<BehaviorStatus>,
    child: nat,
) -> BehaviorStatus
    decreases statuses.len() - child,
{
    if child >= statuses.len() {
        pass
    } else {
        match composite_next(pass, statuses.len(), child, statuses[child as int]) {
            CompositeStep::Done(status) => status,
            CompositeStep::Tick(_) => composite_run(pass, statuses, child + 1),
        }
    }
}

fn begin_composite(pass: BehaviorStatus, children: usize) -> (step: CompositeStep)
    ensures
        step == composite_begin(pass, children as nat),
{
    if children == 0 {
        CompositeStep::Done(pass)
    } else {
        CompositeStep::Tick(0)
    }
}

fn next_in_composite(pass: BehaviorStatus, children: usize, child: usize, status: BehaviorStatus) -> (step:
    CompositeStep)
    requires
        child < children,
    ensures
        step == composite_next(pass, children as nat, child as nat, status),
{
    if status != pass {
        CompositeStep::Done(status)
    } else if child + 1 < children {
        CompositeStep::Tick(child + 1)
    } else {
        CompositeStep::Done(pass)
    }
}

impl DecoratorBehavior<Invert> {
    /// The answer to a tick, given the child's answer to it: the child's
    /// answer turned around.
    pub fn handle(&self, child_status: BehaviorStatus) -> (status: BehaviorStatus)
        ensures
            status == inverted(child_status),
    {
        match child_status {
            BehaviorStatus::Success => BehaviorStatus::Failure,
            BehaviorStatus::Failure => BehaviorStatus::Success,
            BehaviorStatus::Running => BehaviorStatus::Running,
        }
    }
}

impl CompositeBehavior<Sequence> {
    /// The start of a tick: the first child is ticked; a sequence without
    /// children succeeds at once.
    pub fn begin(&self) -> (step: CompositeStep)
        ensures
            step == composite_begin(BehaviorStatus::Success, self.children@.len()),
    {
        begin_composite(BehaviorStatus::Success, self.children.len())
    }

    /// The child with index `child` answered `status`. After a success the
    /// next child is ticked, and the sequence succeeds after the last; any
    /// other answer is the answer of the sequence, and no further child is
    /// ticked.
    pub fn on_child(&self, child: usize, status: BehaviorStatus) -> (step: CompositeStep)
        requires
            child < self.children@.len(),
        ensures
            step == composite_next(
                BehaviorStatus::Success,
                self.children@.len(),
                child as nat,
                status,
            ),
    {
        next_in_composite(BehaviorStatus::Success, self.children.len(), child, status)
    }
}

impl CompositeBehavior<Fallback> {
    /// The start of a tick: the first child is ticked; a fallback without
    /// children fails at once.
    pub fn begin(&self) -> (step: CompositeStep)
        ensures
            step == composite_begin(BehaviorStatus::Failure, self.children@.len()),
    {
        begin_composite(BehaviorStatus::Failure, self.children.len())
    }

    /// The child with index `child` answered `status`. After a failure the
    /// next child is ticked, and the fallback fails after the last; any
    /// other answer is the answer of the fallback, and no further child is
    /// ticked.
    pub fn on_child(&self, child: usize, status: BehaviorStatus) -> (step: CompositeStep)
        requires
            child < self.children@.len(),
        ensures
            step == composite_next(
                BehaviorStatus::Failure,
                self.children@.len(),
                child as nat,
                status,
            ),
    {
        next_in_composite(BehaviorStatus::Failure, self.children.len(), child, status)
    }
}

/// To turn an answer around twice gives the answer back.
pub proof fn lemma_inverted_twice(status: BehaviorStatus)
    ensures
        inverted(inverted(status)) == status,
{
}

/// A composite that goes step by step from the child with index `child`
/// on arrives at the answer of the first of the remaining children that
/// does not answer `pass`.
pub proof fn lemma_composite_run_from(
    pass: BehaviorStatus,
    statuses: Seq<BehaviorStatus>,
    child: nat,
)
    requires
        child <= statuses.len(),
    ensures
        composite_run(pass, statuses, child) == first_other_than(
            pass,
            statuses.subrange(child as int, statuses.len() as int),
        ),
    decreases statuses.len() - child,
{
    let rest = statuses.subrange(child as int, statuses.len() as int);
    if child < statuses.len() {
        assert(rest[0] == statuses[child as int]);
        assert(rest.subrange(1, rest.len() as int) =~= statuses.subrange(
            child as int + 1,
            statuses.len() as int,
        ));
        lemma_composite_run_from(pass, statuses, child + 1);
    }
}

/// A sequence that ticks its children one after the other answers with
/// the answer of the first child that does not succeed, and with success
/// if all do; a fallback answers with the answer of the first child that
/// does not fail, and with failure if all do.
pub proof fn lemma_composites_answer(statuses: Seq<BehaviorStatus>)
    ensures
        composite_run(BehaviorStatus::Success, statuses, 0) == sequence_status(statuses),
        composite_run(BehaviorStatus::Failure, statuses, 0) == fallback_status(statuses),
{
    assert(statuses.subrange(0, statuses.len() as int) =~= statuses);
    lemma_composite_run_from(BehaviorStatus::Success, statuses, 0);
    lemma_composite_run_from(BehaviorStatus::Failure, statuses, 0);
}

/// A fallback is a sequence turned around: it answers as a sequence over
/// the inverted answers would, inverted.
pub proof fn lemma_fallback_is_inverted_sequence(statuses: Seq<BehaviorStatus>)
    ensures
        fallback_status(statuses) == inverted(
            sequence_status(statuses.map_values(|status: BehaviorStatus| inverted(status))),
        ),
    decreases statuses.len(),
{
    let turned = statuses.map_values(|status: BehaviorStatus| inverted(status));
    if statuses.len() > 0 {
        let rest = statuses.subrange(1, statuses.len() as int);
        assert(turned[0] == inverted(statuses[0]));
        assert(turned.subrange(1, turned.len() as int) =~= rest.map_values(
            |status: BehaviorStatus| inverted(status),
        ));
        lemma_fallback_is_inverted_sequence(rest);
    }
}

} // verus!
