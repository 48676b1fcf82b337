//! Facts about the lifecycle that follow from the machine's contracts.
use crate::state::{call, same_below, stop_calls, Hook, State, StateMachine, Trans};
use std::time::Duration;
use vstd::prelude::*;

verus! {

/// On a running machine a `Push` adds one entry to the stack, a `Pop` of a
/// non-empty stack removes one, and a `Switch` on a non-empty stack keeps its
/// size.
pub proof fn lemma_depth_per_request<S: State>(
    pre: StateMachine<S>,
    req: Trans<S>,
    post: StateMachine<S>,
)
    requires
        pre.running(),
        (req is Pop || req is Switch) ==> pre.stack().len() >= 1,
        StateMachine::transition_spec(pre, req, post),
    ensures
        req is Push ==> post.stack().len() == pre.stack().len() + 1,
        req is Pop ==> post.stack().len() == pre.stack().len() - 1,
        req is Switch ==> post.stack().len() == pre.stack().len(),
        (req is Push || req is Pop || req is Switch) ==> post.running(),
{
}

/// How much a run of `Push`, `Pop` and `Switch` requests grows the stack: one
/// for each `Push`, minus one for each `Pop`.
pub open spec fn net_growth<S>(reqs: Seq<Trans<S>>) -> int
    decreases reqs.len(),
{
    if reqs.len() == 0 {
        0
    } else {
        let last = reqs.last();
        net_growth(reqs.drop_last()) + if last is Push {
            1int
        } else if last is Pop {
            -1int
        } else {
            0int
        }
    }
}

/// Along any run of `update` calls on a running machine, in which the active
/// state answers `reqs[k]` to the `k`-th call, every answer is a `Push`, `Pop`
/// or `Switch`, and the stack is not empty before any call, the machine keeps
/// running and after the first `k` calls its stack has grown by `net_growth`
/// of the first `k` answers.
pub proof fn lemma_depth_along_updates<S: State>(
    ms: Seq<StateMachine<S>>,
    deltas: Seq<Duration>,
    reqs: Seq<Trans<S>>,
)
    requires
        ms.len() == reqs.len() + 1,
        deltas.len() == reqs.len(),
        ms[0].running(),
        forall|k: int| 0 <= k < reqs.len() ==> #[trigger] reqs[k] is Push || reqs[k] is Pop || reqs[k] is Switch,
        forall|k: int| 0 <= k < reqs.len() ==> (#[trigger] ms[k]).stack().len() >= 1,
        forall|k: int|
            0 <= k < reqs.len() ==> StateMachine::update_spec(
                ms[k],
                Hook::Update,
                #[trigger] deltas[k],
                ms[k + 1],
            ) && ms[k + 1].answers().last() == reqs[k],
    ensures
        forall|k: int|
            0 <= k <= reqs.len() ==> (#[trigger] ms[k]).running() && ms[k].stack().len() == ms[0].stack().len()
                + net_growth(reqs.take(k)),
    decreases reqs.len(),
{
    if reqs.len() > 0 {
        let n = reqs.len() - 1;
        lemma_depth_along_updates(ms.take(n + 1), deltas.take(n), reqs.take(n));
        assert(ms.take(n + 1)[n] == ms[n]);
        let mid = choose|mid: StateMachine<S>|
            {
                &&& StateMachine::tick_spec(ms[n], Hook::Update, mid)
                &&& mid.batches() == ms[n].batches()
                &&& mid.deltas() == ms[n].deltas().push(deltas[n])
                &&& mid.answers() == ms[n].answers().push(reqs[n])
                &&& #[trigger] StateMachine::transition_spec(mid, reqs[n], ms[n + 1])
            };
        lemma_depth_per_request(mid, reqs[n], ms[n + 1]);
        assert forall|k: int| 0 <= k <= reqs.len() implies (#[trigger] ms[k]).running()
            && ms[k].stack().len() == ms[0].stack().len() + net_growth(reqs.take(k)) by {
            if k <= n {
                assert(ms.take(n + 1)[k] == ms[k]);
                assert(reqs.take(n).take(k) =~= reqs.take(k));
            } else {
                assert(reqs.take(n).take(n) =~= reqs.take(n));
                assert(reqs.take(k).drop_last() =~= reqs.take(n));
            }
        }
    } else {
        assert(reqs.take(0) =~= Seq::<Trans<S>>::empty());
    }
}

/// Starting a fresh machine twice calls `on_start` on its initial state once.
pub proof fn lemma_start_twice<S: State>(
    m0: StateMachine<S>,
    m1: StateMachine<S>,
    m2: StateMachine<S>,
)
    requires
        !m0.running(),
        m0.stack().len() == 1,
        StateMachine::start_spec(m0, m1),
        StateMachine::start_spec(m1, m2),
    ensures
        m2.running(),
        m2.calls() == m0.calls().push(call(Hook::Start, 0, m0.stack()[0])),
{
}

/// The calls of stopping the stack `stack` are `on_stop` on each entry
/// exactly once, with the entry's value, the top entry first and the bottom
/// one last.
pub proof fn lemma_stop_calls_each_once<S>(stack: Seq<S>)
    ensures
        stop_calls(stack).len() == stack.len(),
        forall|k: int| 0 <= k < stack.len() ==> (#[trigger] stop_calls(stack)[k]).hook == Hook::Stop,
        forall|k1: int, k2: int|
            0 <= k1 < k2 < stack.len() ==> (#[trigger] stop_calls(stack)[k1]).index > (
            #[trigger] stop_calls(stack)[k2]).index,
        forall|i: int|
            0 <= i < stack.len() ==> {
                &&& #[trigger] stop_calls(stack)[stack.len() - 1 - i] == call(Hook::Stop, i, stack[i])
                &&& forall|k: int|
                    0 <= k < stack.len() && k != stack.len() - 1 - i ==> stop_calls(stack)[k].index
                        != i
            },
{
}

/// Stopping a machine that is not running calls nothing and changes nothing.
pub proof fn lemma_stop_when_stopped<S: State>(pre: StateMachine<S>, post: StateMachine<S>)
    requires
        !pre.running(),
        StateMachine::stop_spec(pre, post),
    ensures
        post == pre,
{
}

/// A `Quit` on a running machine, at any depth, leaves it stopped after
/// `on_stop` ran once on every entry, from the top down.
pub proof fn lemma_quit_unwinds<S: State>(pre: StateMachine<S>, post: StateMachine<S>)
    requires
        pre.running(),
        StateMachine::transition_spec(pre, Trans::Quit, post),
    ensures
        !post.running(),
        post.stack().len() == pre.stack().len(),
        post.calls() == pre.calls() + stop_calls(pre.stack()),
{
}

/// When the active state answers `update` with `Quit`, at any depth, the
/// machine ends stopped, and after that state's `update` the only calls are
/// `on_stop` once on every entry, from the top down; every entry but the top
/// one is stopped with its value from before the tick.
pub proof fn lemma_update_quit<S: State>(
    pre: StateMachine<S>,
    delta: Duration,
    post: StateMachine<S>,
)
    requires
        pre.running(),
        pre.stack().len() >= 1,
        StateMachine::update_spec(pre, Hook::Update, delta, post),
        post.answers().last() == Trans::<S>::Quit,
    ensures
        !post.running(),
        post.stack().len() == pre.stack().len(),
        post.deltas() == pre.deltas().push(delta),
        exists|ticked: Seq<S>|
            {
                &&& ticked.len() == pre.stack().len()
                &&& same_below(pre.stack(), ticked, pre.stack().len() - 1)
                &&& post.calls() == pre.calls().push(
                    call(Hook::Update, pre.stack().len() - 1, pre.stack().last()),
                ) + #[trigger] stop_calls(ticked)
            },
{
    let mid = choose|mid: StateMachine<S>|
        {
            &&& StateMachine::tick_spec(pre, Hook::Update, mid)
            &&& mid.batches() == pre.batches()
            &&& mid.deltas() == pre.deltas().push(delta)
            &&& mid.answers() == pre.answers().push(Trans::<S>::Quit)
            &&& #[trigger] StateMachine::transition_spec(mid, Trans::<S>::Quit, post)
        };
    lemma_quit_unwinds(mid, post);
}

/// Before `start`, none of the ticks calls a state or changes the machine.
pub proof fn lemma_ticks_before_start<S: State>(
    pre: StateMachine<S>,
    events: Seq<i32>,
    delta: Duration,
    post_events: StateMachine<S>,
    post_fixed: StateMachine<S>,
    post_update: StateMachine<S>,
)
    requires
        !pre.running(),
        StateMachine::events_spec(pre, events, post_events),
        StateMachine::update_spec(pre, Hook::FixedUpdate, delta, post_fixed),
        StateMachine::update_spec(pre, Hook::Update, delta, post_update),
    ensures
        post_events == pre,
        post_fixed == pre,
        post_update == pre,
{
}

} // verus!
