use vstd::prelude::*;

verus! {

/// How one completion signal resolved.
#[derive(Debug, Eq, PartialEq, Copy, Clone, Structural)]
pub enum CompletionOutcome {
    /// The component reported success.
    Succeeded,
    /// The component reported an error of its own.
    ReportedError,
    /// The producer half was dropped before anything was sent.
    ProducerDropped,
}

pub open spec fn outcome_of<E, R>(received: Result<Result<(), E>, R>) -> CompletionOutcome {
    match received {
        Err(_) => CompletionOutcome::ProducerDropped,
        Ok(Err(_)) => CompletionOutcome::ReportedError,
        Ok(Ok(())) => CompletionOutcome::Succeeded,
    }
}

/// Classifies what a completion signal's consumer half received.
pub fn completion_outcome<E, R>(received: &Result<Result<(), E>, R>) -> (r: CompletionOutcome)
    ensures
        r == outcome_of(*received),
{
    match received {
        Err(_) => CompletionOutcome::ProducerDropped,
        Ok(Err(_)) => CompletionOutcome::ReportedError,
        Ok(Ok(())) => CompletionOutcome::Succeeded,
    }
}

/// What happens during the wait phase.
#[derive(Debug, Eq, PartialEq, Copy, Clone, Structural)]
pub enum WaitEvent {
    /// Every signal has been handed out; waiting begins.
    Started,
    /// The signal with this index resolved, whatever its outcome.
    Resolved(usize),
    /// The global deadline fired.
    DeadlineElapsed,
}

/// What the driver of the wait phase has to do next.
#[derive(Debug, Eq, PartialEq, Copy, Clone, Structural)]
pub enum WaitAction {
    /// Keep waiting for signals or for the deadline.
    KeepWaiting,
    /// The wait phase is over: stop the runtime's dispatch.
    StopRuntime,
    /// The wait phase ended earlier; the event changes nothing.
    Ignore,
}

/// Abstract state of the wait phase.
pub struct WaitState {
    pub resolved: Seq<bool>,
    pub stopped: bool,
    pub timed_out: bool,
}

pub open spec fn all_resolved(resolved: Seq<bool>) -> bool {
    forall|i: int| 0 <= i < resolved.len() ==> #[trigger] resolved[i]
}

pub open spec fn initial_state(n: nat) -> WaitState {
    WaitState { resolved: Seq::new(n, |i: int| false), stopped: false, timed_out: false }
}

/// One transition of the wait phase.
pub open spec fn step(s: WaitState, e: WaitEvent) -> (WaitState, WaitAction) {
    if s.stopped {
        (s, WaitAction::Ignore)
    } else {
        match e {
            WaitEvent::DeadlineElapsed => (
                WaitState { resolved: s.resolved, stopped: true, timed_out: true },
                WaitAction::StopRuntime,
            ),
            WaitEvent::Started => if all_resolved(s.resolved) {
                (
                    WaitState { resolved: s.resolved, stopped: true, timed_out: s.timed_out },
                    WaitAction::StopRuntime,
                )
            } else {
                (s, WaitAction::KeepWaiting)
            },
            WaitEvent::Resolved(i) => {
                let r = if i < s.resolved.len() {
                    s.resolved.update(i as int, true)
                } else {
                    s.resolved
                };
                if all_resolved(r) {
                    (
                        WaitState { resolved: r, stopped: true, timed_out: s.timed_out },
                        WaitAction::StopRuntime,
                    )
                } else {
                    (
                        WaitState { resolved: r, stopped: false, timed_out: s.timed_out },
                        WaitAction::KeepWaiting,
                    )
                }
            },
        }
    }
}

/// State and actions after a whole sequence of events.
pub open spec fn run(s: WaitState, events: Seq<WaitEvent>) -> (WaitState, Seq<WaitAction>)
    decreases events.len(),
{
    if events.len() == 0 {
        (s, seq![])
    } else {
        let (mid, actions) = run(s, events.drop_last());
        let (last, action) = step(mid, events.last());
        (last, actions.push(action))
    }
}

/// How many times the runtime is told to stop.
pub open spec fn stop_count(actions: Seq<WaitAction>) -> nat
    decreases actions.len(),
{
    if actions.len() == 0 {
        0
    } else {
        stop_count(actions.drop_last()) + if actions.last() == WaitAction::StopRuntime {
            1nat
        } else {
            0nat
        }
    }
}

/// Bookkeeping of the timeout-bounded wait for every completion signal.
pub struct WaitTracker {
    resolved: Vec<bool>,
    stopped: bool,
    timed_out: bool,
}

impl WaitTracker {
    pub closed spec fn view(&self) -> WaitState {
        WaitState { resolved: self.resolved@, stopped: self.stopped, timed_out: self.timed_out }
    }

    /// A tracker for `n` signals, none of them resolved yet.
    pub fn new(n: usize) -> (r: Self)
        ensures
            r.view() == initial_state(n as nat),
    {
        let mut resolved: Vec<bool> = Vec::new();
        let mut i: usize = 0;
        while i < n
            invariant
                i <= n,
                resolved@ == Seq::new(i as nat, |k: int| false),
            decreases n - i,
        {
            resolved.push(false);
            i += 1;
            assert(resolved@ =~= Seq::new(i as nat, |k: int| false));
        }
        WaitTracker { resolved, stopped: false, timed_out: false }
    }

    /// Whether the wait phase is over.
    pub fn is_stopped(&self) -> (r: bool)
        ensures
            r == self.view().stopped,
    {
        self.stopped
    }

    /// Whether the wait phase ended because the deadline fired.
    pub fn timed_out(&self) -> (r: bool)
        ensures
            r == self.view().timed_out,
    {
        self.timed_out
    }

    fn all_resolved_now(&self) -> (r: bool)
        ensures
            r == all_resolved(self.resolved@),
    {
        let mut i: usize = 0;
        while i < self.resolved.len()
            invariant
                i <= self.resolved@.len(),
                forall|k: int| 0 <= k < i ==> #[trigger] self.resolved@[k],
            decreases self.resolved@.len() - i,
        {
            if !self.resolved[i] {
                return false;
            }
            i += 1;
        }
        true
    }

    /// Applies one event and says what to do next.
    pub fn on_event(&mut self, event: WaitEvent) -> (r: WaitAction)
        ensures
            final(self).view() == step(old(self).view(), event).0,
            r == step(old(self).view(), event).1,
    {
        if self.stopped {
            return WaitAction::Ignore;
        }
        match event {
            WaitEvent::DeadlineElapsed => {
                self.stopped = true;
                self.timed_out = true;
                WaitAction::StopRuntime
            },
            WaitEvent::Started => {
                if self.all_resolved_now() {
                    self.stopped = true;
                    WaitAction::StopRuntime
                } else {
                    WaitAction::KeepWaiting
                }
            },
            WaitEvent::Resolved(i) => {
                if i < self.resolved.len() {
                    self.resolved.set(i, true);
                }
                if self.all_resolved_now() {
                    self.stopped = true;
                    WaitAction::StopRuntime
                } else {
                    WaitAction::KeepWaiting
                }
            },
        }
    }
}

proof fn lemma_stop_count_push(actions: Seq<WaitAction>, a: WaitAction)
    ensures
        stop_count(actions.push(a)) == stop_count(actions) + if a == WaitAction::StopRuntime {
            1nat
        } else {
            0nat
        },
{
    assert(actions.push(a).drop_last() =~= actions);
}

proof fn lemma_run_stop_count(s: WaitState, events: Seq<WaitEvent>)
    ensures
        s.stopped ==> run(s, events).0.stopped,
        s.timed_out ==> run(s, events).0.timed_out,
        run(s, events).0.resolved.len() == s.resolved.len(),
        stop_count(run(s, events).1) == if run(s, events).0.stopped && !s.stopped {
            1nat
        } else {
            0nat
        },
    decreases events.len(),
{
    if events.len() > 0 {
        lemma_run_stop_count(s, events.drop_last());
        let (mid, actions) = run(s, events.drop_last());
        let (last, action) = step(mid, events.last());
        lemma_stop_count_push(actions, action);
    }
}

/// Whatever events arrive, the runtime is told to stop at most once: exactly
/// once if the wait phase has ended, never while it goes on.
pub proof fn lemma_runtime_stopped_at_most_once(n: nat, events: Seq<WaitEvent>)
    ensures
        stop_count(run(initial_state(n), events).1) == if run(initial_state(n), events).0.stopped {
            1nat
        } else {
            0nat
        },
        stop_count(run(initial_state(n), events).1) <= 1,
{
    lemma_run_stop_count(initial_state(n), events);
}

/// Once the deadline fires, the wait phase is over and the runtime has been
/// told to stop exactly once, however many signals are still unresolved.
pub proof fn lemma_deadline_ends_wait(n: nat, events: Seq<WaitEvent>)
    ensures
        run(initial_state(n), events.push(WaitEvent::DeadlineElapsed)).0.stopped,
        stop_count(run(initial_state(n), events.push(WaitEvent::DeadlineElapsed)).1) == 1,
{
    let all = events.push(WaitEvent::DeadlineElapsed);
    assert(all.drop_last() =~= events);
    lemma_run_stop_count(initial_state(n), all);
}

/// Whether index `i` is among those in `order`.
pub open spec fn occurs_in(order: Seq<usize>, i: int) -> bool {
    exists|k: int| 0 <= k < order.len() && order[k] as int == i
}

/// Events of a wait phase in which the signals resolve in the given order
/// and the deadline never fires.
pub open spec fn resolutions(order: Seq<usize>) -> Seq<WaitEvent> {
    seq![WaitEvent::Started] + order.map_values(|i: usize| WaitEvent::Resolved(i))
}

proof fn lemma_resolution_prefix(n: nat, order: Seq<usize>, j: int)
    requires
        1 <= j <= order.len() + 1,
    ensures
        ({
            let st = run(initial_state(n), resolutions(order).subrange(0, j)).0;
            &&& st.resolved.len() == n
            &&& !st.timed_out
            &&& !st.stopped ==> !all_resolved(st.resolved)
            &&& !st.stopped ==> forall|i: int|
                0 <= i < n ==> (#[trigger] st.resolved[i] <==> exists|k: int|
                    0 <= k < j - 1 && order[k] as int == i)
        }),
    decreases j,
{
    let events = resolutions(order);
    let init = initial_state(n);
    if j == 1 {
        let first = events.subrange(0, 1);
        assert(first.drop_last() =~= seq![]);
        assert(first.last() == WaitEvent::Started);
        if n > 0 {
            assert(!init.resolved[0]);
        }
        let st = run(init, first).0;
        assert(run(init, first.drop_last()).0 == init);
        assert(st == step(init, WaitEvent::Started).0);
        assert(st.resolved.len() == n);
        assert(!st.timed_out);
        assert(!st.stopped ==> !all_resolved(st.resolved));
    } else {
        lemma_resolution_prefix(n, order, j - 1);
        let prefix = events.subrange(0, j);
        assert(prefix.drop_last() =~= events.subrange(0, j - 1));
        assert(prefix.last() == WaitEvent::Resolved(order[j - 2]));
        let st = run(init, events.subrange(0, j - 1)).0;
        let next = run(init, prefix).0;
        assert(next == step(st, WaitEvent::Resolved(order[j - 2])).0);
        assert(next.resolved.len() == n);
        assert(!next.timed_out);
        assert(!next.stopped ==> !all_resolved(next.resolved));
        if !next.stopped {
            assert forall|i: int| 0 <= i < n implies (#[trigger] next.resolved[i] <==> exists|k: int|
                0 <= k < j - 1 && order[k] as int == i) by {
                if next.resolved[i] && !st.resolved[i] {
                    assert(order[j - 2] as int == i);
                }
                if exists|k: int| 0 <= k < j - 1 && order[k] as int == i {
                    let k = choose|k: int| 0 <= k < j - 1 && order[k] as int == i;
                    if k < j - 2 {
                        assert(st.resolved[i]);
                    }
                }
            }
        }
    }
}

/// When every one of the `n` signals resolves before the deadline, in any
/// order, the wait phase ends without a timeout and the runtime is told to
/// stop exactly once.
pub proof fn lemma_all_resolved_in_time(n: nat, order: Seq<usize>)
    requires
        forall|i: int| 0 <= i < n ==> #[trigger] occurs_in(order, i),
    ensures
        run(initial_state(n), resolutions(order)).0.stopped,
        !run(initial_state(n), resolutions(order)).0.timed_out,
        stop_count(run(initial_state(n), resolutions(order)).1) == 1,
{
    let events = resolutions(order);
    lemma_resolution_prefix(n, order, order.len() as int + 1);
    assert(events.subrange(0, order.len() as int + 1) =~= events);
    let st = run(initial_state(n), events).0;
    if !st.stopped {
        assert forall|i: int| 0 <= i < st.resolved.len() implies #[trigger] st.resolved[i] by {
            assert(occurs_in(order, i));
        }
    }
    lemma_run_stop_count(initial_state(n), events);
}

} // verus!
