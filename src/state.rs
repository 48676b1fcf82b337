//! Game states and the stack machine that runs them.
use std::time::Duration;
use vstd::prelude::*;

verus! {

/// A callback that the machine invokes on one of its states.
#[derive(Clone, Copy, Debug, PartialEq, Eq)]
pub enum Hook {
    Start,
    Stop,
    Pause,
    Resume,
    Events,
    FixedUpdate,
    Update,
}

/// One invocation of `hook` on the state at position `index` of the stack
/// (0 is the bottom), whose value was `state` when the callback began.
pub struct Call<S> {
    pub hook: Hook,
    pub index: nat,
    pub state: S,
}

/// The record of an invocation of `hook` on the entry at `index`, holding
/// `state` as the callback began.
pub open spec fn call<S>(hook: Hook, index: int, state: S) -> Call<S> {
    Call { hook, index: index as nat, state }
}

/// The calls that stopping the stack `stack` makes: `on_stop` on each entry
/// once, from the top down.
pub open spec fn stop_calls<S>(stack: Seq<S>) -> Seq<Call<S>> {
    let n = stack.len();
    Seq::new(n, |k: int| call(Hook::Stop, n - 1 - k, stack[n - 1 - k]))
}

/// The entries of `post` below position `k` are those of `pre`.
pub open spec fn same_below<S>(pre: Seq<S>, post: Seq<S>, k: int) -> bool {
    forall|j: int| 0 <= j < k ==> post[j] == pre[j]
}

/// Types of state transitions.
pub enum Trans<S> {
    Stay,
    Pop,
    Push(S),
    Switch(S),
    Quit,
}

/// A trait which defines game states that can be used by the state machine.
pub trait State: Sized {
    /// Executed when the game state begins.
    fn on_start(&mut self) {
    }

    /// Executed when the game state exits.
    fn on_stop(&mut self) {
    }

    /// Executed when a different game state is pushed onto the stack.
    fn on_pause(&mut self) {
    }

    /// Executed when the application returns to this game state once again.
    fn on_resume(&mut self) {
    }

    /// Executed on every frame before updating, for use in reacting to events.
    fn handle_events(&mut self, _events: &Vec<i32>) {
    }

    /// Executed repeatedly at stable, predictable intervals.
    fn fixed_update(&mut self, _delta: Duration) -> (r: Trans<Self>)
        default_ensures
            r is Stay,
    {
        Trans::Stay
    }

    /// Executed on every frame immediately, as fast as the engine will allow.
    fn update(&mut self, _delta: Duration) -> (r: Trans<Self>)
        default_ensures
            r is Pop,
    {
        Trans::Pop
    }
}

/// A simple stack-based state machine.
pub struct StateMachine<S: State> {
    running: bool,
    state_stack: Vec<S>,
    calls: Ghost<Seq<Call<S>>>,
    batches: Ghost<Seq<Seq<i32>>>,
    deltas: Ghost<Seq<Duration>>,
    answers: Ghost<Seq<Trans<S>>>,
}

impl<S: State> StateMachine<S> {
    /// Whether the machine has been started and not yet stopped.
    pub closed spec fn running(&self) -> bool {
        self.running
    }

    /// The states, bottom first; the last one is the active state.
    pub closed spec fn stack(&self) -> Seq<S> {
        self.state_stack@
    }

    /// Every callback invoked on a state so far, oldest first.
    pub closed spec fn calls(&self) -> Seq<Call<S>> {
        self.calls@
    }

    /// Every event batch handed to a state so far, oldest first.
    pub closed spec fn batches(&self) -> Seq<Seq<i32>> {
        self.batches@
    }

    /// Every time step handed to a state's `fixed_update` or `update` so far,
    /// oldest first.
    pub closed spec fn deltas(&self) -> Seq<Duration> {
        self.deltas@
    }

    /// Every transition that a state's `fixed_update` or `update` returned so
    /// far, oldest first.
    pub closed spec fn answers(&self) -> Seq<Trans<S>> {
        self.answers@
    }

    /// `pre` and `post` record the same batches, time steps and answers.
    pub open spec fn inputs_kept(pre: Self, post: Self) -> bool {
        &&& post.batches() == pre.batches()
        &&& post.deltas() == pre.deltas()
        &&& post.answers() == pre.answers()
    }

    /// `post` is `pre` after `start`.
    pub open spec fn start_spec(pre: Self, post: Self) -> bool {
        let n = pre.stack().len() as int;
        if pre.running() {
            post == pre
        } else {
            &&& post.running()
            &&& post.stack().len() == n
            &&& same_below(pre.stack(), post.stack(), n - 1)
            &&& post.calls() == pre.calls().push(call(Hook::Start, n - 1, pre.stack()[n - 1]))
            &&& Self::inputs_kept(pre, post)
        }
    }

    /// `post` is `pre` after `stop`.
    pub open spec fn stop_spec(pre: Self, post: Self) -> bool {
        if pre.running() {
            &&& !post.running()
            &&& post.stack().len() == pre.stack().len()
            &&& post.calls() == pre.calls() + stop_calls(pre.stack())
            &&& Self::inputs_kept(pre, post)
        } else {
            post == pre
        }
    }

    /// `post` is `pre` after `pop`.
    pub open spec fn pop_spec(pre: Self, post: Self) -> bool {
        let n = pre.stack().len() as int;
        if pre.running() && n > 0 {
            &&& post.running()
            &&& post.stack().len() == n - 1
            &&& Self::inputs_kept(pre, post)
            &&& same_below(pre.stack(), post.stack(), n - 2)
            &&& post.calls() == if n > 1 {
                pre.calls().push(call(Hook::Stop, n - 1, pre.stack()[n - 1])).push(
                    call(Hook::Resume, n - 2, pre.stack()[n - 2]),
                )
            } else {
                pre.calls().push(call(Hook::Stop, n - 1, pre.stack()[n - 1]))
            }
        } else {
            post == pre
        }
    }

    /// `post` is `pre` after `push` of `state`: the old top is paused, and
    /// `state` goes on top and is started.
    pub open spec fn push_spec(pre: Self, state: S, post: Self) -> bool {
        let n = pre.stack().len() as int;
        if pre.running() {
            &&& post.running()
            &&& post.stack().len() == n + 1
            &&& Self::inputs_kept(pre, post)
            &&& same_below(pre.stack(), post.stack(), n - 1)
            &&& post.calls() == if n > 0 {
                pre.calls().push(call(Hook::Pause, n - 1, pre.stack()[n - 1])).push(
                    call(Hook::Start, n, state),
                )
            } else {
                pre.calls().push(call(Hook::Start, n, state))
            }
        } else {
            post == pre
        }
    }

    /// `post` is `pre` after `switch` to `state`: the old top, if any, is
    /// stopped and removed, and `state` goes on top and is started.
    pub open spec fn switch_spec(pre: Self, state: S, post: Self) -> bool {
        let n = pre.stack().len() as int;
        if pre.running() {
            &&& post.running()
            &&& Self::inputs_kept(pre, post)
            &&& if n > 0 {
                &&& post.stack().len() == n
                &&& same_below(pre.stack(), post.stack(), n - 1)
                &&& post.calls() == pre.calls().push(call(Hook::Stop, n - 1, pre.stack()[n - 1])).push(
                    call(Hook::Start, n - 1, state),
                )
            } else {
                &&& post.stack().len() == 1
                &&& post.calls() == pre.calls().push(call(Hook::Start, 0, state))
            }
        } else {
            post == pre
        }
    }

    /// `post` is `pre` after the transition `req` has been applied.
    pub open spec fn transition_spec(pre: Self, req: Trans<S>, post: Self) -> bool {
        match req {
            Trans::Stay => post == pre,
            Trans::Pop => Self::pop_spec(pre, post),
            Trans::Push(state) => Self::push_spec(pre, state, post),
            Trans::Switch(state) => Self::switch_spec(pre, state, post),
            Trans::Quit => Self::stop_spec(pre, post),
        }
    }

    /// `post` is `pre` after the active state's `hook` tick ran, before any
    /// transition it asked for.
    pub open spec fn tick_spec(pre: Self, hook: Hook, post: Self) -> bool {
        let n = pre.stack().len() as int;
        &&& post.running() == pre.running()
        &&& post.stack().len() == n
        &&& same_below(pre.stack(), post.stack(), n - 1)
        &&& post.calls() == pre.calls().push(call(hook, n - 1, pre.stack()[n - 1]))
    }

    /// `post` is `pre` after a `hook` tick (`FixedUpdate` or `Update`) with
    /// time step `delta`: if the machine runs and has an active state, that
    /// state is ticked with `delta`, the transition it returns is
    /// recorded last in `answers`, and that transition is applied.
    pub open spec fn update_spec(pre: Self, hook: Hook, delta: Duration, post: Self) -> bool {
        if pre.running() && pre.stack().len() > 0 {
            let req = post.answers().last();
            exists|mid: Self|
                {
                    &&& Self::tick_spec(pre, hook, mid)
                    &&& mid.batches() == pre.batches()
                    &&& mid.deltas() == pre.deltas().push(delta)
                    &&& mid.answers() == pre.answers().push(req)
                    &&& #[trigger] Self::transition_spec(mid, req, post)
                }
        } else {
            post == pre
        }
    }

    /// `post` is `pre` after `handle_events` with the batch `events`: the
    /// active state, if the machine runs and has one, handles that batch, and
    /// no transition follows.
    pub open spec fn events_spec(pre: Self, events: Seq<i32>, post: Self) -> bool {
        if pre.running() && pre.stack().len() > 0 {
            &&& Self::tick_spec(pre, Hook::Events, post)
            &&& post.batches() == pre.batches().push(events)
            &&& post.deltas() == pre.deltas()
            &&& post.answers() == pre.answers()
        } else {
            post == pre
        }
    }

    /// A machine that holds `initial_state` alone and is not yet running; no
    /// callback runs.
    pub fn new(initial_state: S) -> (m: Self)
        ensures
            !m.running(),
            m.stack() == seq![initial_state],
            m.calls() == Seq::<Call<S>>::empty(),
            m.batches() == Seq::<Seq<i32>>::empty(),
            m.deltas() == Seq::<Duration>::empty(),
            m.answers() == Seq::<Trans<S>>::empty(),
    {
        StateMachine {
            running: false,
            state_stack: vec![initial_state],
            calls: Ghost(Seq::empty()),
            batches: Ghost(Seq::empty()),
            deltas: Ghost(Seq::empty()),
            answers: Ghost(Seq::empty()),
        }
    }
    /// Invokes the lifecycle callback `hook` on the entry at `i`.
    fn notify(&mut self, i: usize, hook: Hook)
        requires
            i < old(self).stack().len(),
            hook is Start || hook is Stop || hook is Pause || hook is Resume,
        ensures
            final(self).running() == old(self).running(),
            final(self).stack().len() == old(self).stack().len(),
            forall|j: int| 0 <= j < old(self).stack().len() && j != i ==> final(self).stack()[j] == old(self).stack()[j],
            final(self).calls() == old(self).calls().push(call(hook, i as int, old(self).stack()[i as int])),
            Self::inputs_kept(*old(self), *final(self)),
    {
        let ghost entry = self.state_stack@[i as int];
        match hook {
            Hook::Start => self.state_stack[i].on_start(),
            Hook::Stop => self.state_stack[i].on_stop(),
            Hook::Pause => self.state_stack[i].on_pause(),
            Hook::Resume => self.state_stack[i].on_resume(),
            _ => (),
        }
        self.calls = Ghost(self.calls@.push(call(hook, i as int, entry)));
    }

    /// Whether the machine has been started and not yet stopped.
    pub fn is_running(&self) -> (r: bool)
        ensures
            r == self.running(),
    {
        self.running
    }

    /// The number of states on the stack.
    pub fn depth(&self) -> (r: usize)
        ensures
            r == self.stack().len(),
    {
        self.state_stack.len()
    }

    /// Retrieves the currently active state.
    pub fn current(&mut self) -> (r: Option<&mut S>)
        ensures
            final(self).running() == old(self).running(),
            final(self).calls() == old(self).calls(),
            Self::inputs_kept(*old(self), *final(self)),
            old(self).stack().len() == 0 ==> r is None && final(self).stack() == old(self).stack(),
            old(self).stack().len() > 0 ==> {
                &&& r is Some
                &&& *r.unwrap() == old(self).stack().last()
                &&& final(self).stack() == old(self).stack().update(
                    old(self).stack().len() - 1,
                    *final(r.unwrap()),
                )
            },
    {
        self.state_stack.as_mut_slice().last_mut()
    }

    /// Passes a vector of events to the active state to handle.
    pub fn handle_events(&mut self, events: &Vec<i32>)
        ensures
            Self::events_spec(*old(self), events@, *final(self)),
    {
        if self.running {
            let n = self.state_stack.len();
            if n > 0 {
                let ghost entry = self.state_stack@[n - 1];
                self.state_stack[n - 1].handle_events(events);
                self.calls = Ghost(self.calls@.push(call(Hook::Events, n - 1, entry)));
                self.batches = Ghost(self.batches@.push(events@));
            }
        }
    }

    /// Updates the currently active state at a steady, fixed interval.
    pub fn fixed_update(&mut self, delta_time: Duration)
        requires
            old(self).stack().len() < usize::MAX,
        ensures
            Self::update_spec(*old(self), Hook::FixedUpdate, delta_time, *final(self)),
    {
        if self.running {
            let n = self.state_stack.len();
            if n > 0 {
                let ghost entry = self.state_stack@[n - 1];
                let trans = self.state_stack[n - 1].fixed_update(delta_time);
                self.calls = Ghost(self.calls@.push(call(Hook::FixedUpdate, n - 1, entry)));
                self.deltas = Ghost(self.deltas@.push(delta_time));
                self.answers = Ghost(self.answers@.push(trans));
                let ghost mid = *self;
                self.transition(trans);
                assert(Self::tick_spec(*old(self), Hook::FixedUpdate, mid));
            }
        }
    }

    /// Updates the currently active state immediately.
    pub fn update(&mut self, delta_time: Duration)
        requires
            old(self).stack().len() < usize::MAX,
        ensures
            Self::update_spec(*old(self), Hook::Update, delta_time, *final(self)),
    {
        if self.running {
            let n = self.state_stack.len();
            if n > 0 {
                let ghost entry = self.state_stack@[n - 1];
                let trans = self.state_stack[n - 1].update(delta_time);
                self.calls = Ghost(self.calls@.push(call(Hook::Update, n - 1, entry)));
                self.deltas = Ghost(self.deltas@.push(delta_time));
                self.answers = Ghost(self.answers@.push(trans));
                let ghost mid = *self;
                self.transition(trans);
                assert(Self::tick_spec(*old(self), Hook::Update, mid));
            }
        }
    }

    /// Performs a state transition, if requested by either `update` or
    /// `fixed_update`.
    fn transition(&mut self, request: Trans<S>)
        requires
            old(self).stack().len() < usize::MAX,
        ensures
            Self::transition_spec(*old(self), request, *final(self)),
    {
        if self.running {
            match request {
                Trans::Stay => (),
                Trans::Pop => self.pop(),
                Trans::Push(state) => self.push(state),
                Trans::Switch(state) => self.switch(state),
                Trans::Quit => self.stop(),
            }
        }
    }

    /// Initializes the state machine.
    pub fn start(&mut self)
        requires
            old(self).running() || old(self).stack().len() > 0,
        ensures
            Self::start_spec(*old(self), *final(self)),
    {
        if !self.running {
            let n = self.state_stack.len();
            self.notify(n - 1, Hook::Start);
            self.running = true;
        }
    }

    /// Sets the currently active state.
    pub fn switch(&mut self, state: S)
        ensures
            Self::switch_spec(*old(self), state, *final(self)),
    {
        if self.running {
            if !self.state_stack.is_empty() {
                let n = self.state_stack.len();
                self.notify(n - 1, Hook::Stop);
                self.state_stack.pop();
            }
            self.state_stack.push(state);
            let n = self.state_stack.len();
            self.notify(n - 1, Hook::Start);
        }
    }

    /// Pauses the active state (if any) and pushes a new state onto the state
    /// stack.
    pub fn push(&mut self, state: S)
        requires
            old(self).stack().len() < usize::MAX,
        ensures
            Self::push_spec(*old(self), state, *final(self)),
    {
        if self.running {
            let n = self.state_stack.len();
            if n > 0 {
                self.notify(n - 1, Hook::Pause);
            }
            self.state_stack.push(state);
            self.notify(n, Hook::Start);
        }
    }

    /// Stops and removes the active state and un-pauses the next state on the
    /// stack (if any).
    pub fn pop(&mut self)
        ensures
            Self::pop_spec(*old(self), *final(self)),
    {
        if self.running {
            if !self.state_stack.is_empty() {
                let n = self.state_stack.len();
                self.notify(n - 1, Hook::Stop);
                self.state_stack.pop();
            }
            let n = self.state_stack.len();
            if n > 0 {
                self.notify(n - 1, Hook::Resume);
            }
        }
    }

    /// Shuts the state machine down, stopping every state from the top down.
    pub fn stop(&mut self)
        ensures
            Self::stop_spec(*old(self), *final(self)),
    {
        if self.running {
            let ghost pre = *self;
            let n = self.state_stack.len();
            let mut i: usize = n;
            while i > 0
                invariant
                    i <= n,
                    n == pre.stack().len(),
                    self.running(),
                    self.stack().len() == n,
                    self.calls() == pre.calls() + stop_calls(pre.stack()).take(n - i),
                    same_below(pre.stack(), self.stack(), i as int),
                    Self::inputs_kept(pre, *self),
                decreases i,
            {
                i = i - 1;
                self.notify(i, Hook::Stop);
                assert(stop_calls(pre.stack()).take(n - i) =~= stop_calls(pre.stack()).take(
                    n - i - 1,
                ).push(call(Hook::Stop, i as int, pre.stack()[i as int])));
            }
            assert(stop_calls(pre.stack()).take(n as int) =~= stop_calls(pre.stack()));
            self.running = false;
        }
    }
}

} // verus!
