use vstd::prelude::*;

verus! {

/// The state reported to the OS service manager. It only moves forward:
/// Starting, Running, StopPending, Stopped.
#[derive(PartialEq, Eq, Structural, Clone, Copy, Debug)]
pub enum ServiceState {
    Starting,
    Running,
    StopPending,
    Stopped,
}

/// The position of a state in the forward order.
pub open spec fn rank(s: ServiceState) -> int {
    match s {
        ServiceState::Starting => 0,
        ServiceState::Running => 1,
        ServiceState::StopPending => 2,
        ServiceState::Stopped => 3,
    }
}

/// What the service is doing.
#[derive(PartialEq, Eq, Structural, Clone, Copy, Debug)]
pub enum LifecyclePhase {
    Registering,
    Bootstrapping,
    Serving,
    Finished,
}

/// One status report to the OS: the state, whether a stop request is
/// accepted, the exit code, and how long the OS should wait for the next
/// report, in milliseconds.
#[derive(PartialEq, Eq, Structural, Clone, Copy, Debug)]
pub struct StatusReport {
    pub state: ServiceState,
    pub accepts_stop: bool,
    pub exit_code: u32,
    pub wait_hint_ms: u32,
}

/// What happened since the last step.
#[derive(PartialEq, Eq, Structural, Clone, Copy, Debug)]
pub enum LifecycleEvent {
    /// The control handler is registered with the OS.
    HandlerRegistered,
    /// The bootstrap pass is over, ready or not.
    BootstrapFinished { ready: bool },
    /// The listener stopped on its own.
    ServingEnded,
    /// The shutdown watcher saw a stop notification.
    ShutdownDetected,
}

/// What the caller does, in order.
#[derive(PartialEq, Eq, Structural, Clone, Copy, Debug)]
pub enum LifecycleAction {
    Report(StatusReport),
    RunBootstrap,
    StartServing,
    StopServing,
    Exit,
}

/// The service lifecycle: the state last reported and the phase.
#[derive(PartialEq, Eq, Structural, Clone, Copy, Debug)]
pub struct ServiceLifecycle {
    pub state: ServiceState,
    pub phase: LifecyclePhase,
}

/// Exit code reported when the environment could not be made ready.
pub const BOOTSTRAP_FAILURE_EXIT_CODE: u32 = 1;

/// How long the OS is asked to wait between the stop-pending report and the
/// stopped one, in milliseconds.
pub const STOP_WAIT_HINT_MS: u32 = 5000;

/// How often the shutdown watcher looks for a stop notification, in
/// milliseconds.
pub const SHUTDOWN_POLL_MS: u64 = 100;

pub open spec fn report(state: ServiceState, accepts_stop: bool, exit_code: u32, wait_hint_ms: u32) -> LifecycleAction {
    LifecycleAction::Report(StatusReport { state, accepts_stop, exit_code, wait_hint_ms })
}

/// The reports and exit that end a run with the given exit code.
pub open spec fn stop_sequence(exit_code: u32) -> Seq<LifecycleAction> {
    seq![
        report(ServiceState::StopPending, false, 0, STOP_WAIT_HINT_MS),
        report(ServiceState::Stopped, false, exit_code, 0),
        LifecycleAction::Exit,
    ]
}

pub open spec fn initial_lifecycle() -> ServiceLifecycle {
    ServiceLifecycle { state: ServiceState::Starting, phase: LifecyclePhase::Registering }
}

/// One transition of the lifecycle. An event that does not fit the phase
/// changes nothing and asks for nothing.
pub open spec fn lifecycle_step(m: ServiceLifecycle, e: LifecycleEvent) -> (
    ServiceLifecycle,
    Seq<LifecycleAction>,
) {
    let finished = ServiceLifecycle { state: ServiceState::Stopped, phase: LifecyclePhase::Finished };
    match (m.phase, e) {
        (LifecyclePhase::Registering, LifecycleEvent::HandlerRegistered) => (
            ServiceLifecycle { state: ServiceState::Running, phase: LifecyclePhase::Bootstrapping },
            seq![report(ServiceState::Running, true, 0, 0), LifecycleAction::RunBootstrap],
        ),
        (LifecyclePhase::Bootstrapping, LifecycleEvent::BootstrapFinished { ready }) => if ready {
            (
                ServiceLifecycle { phase: LifecyclePhase::Serving, ..m },
                seq![LifecycleAction::StartServing],
            )
        } else {
            (finished, stop_sequence(BOOTSTRAP_FAILURE_EXIT_CODE))
        },
        (LifecyclePhase::Serving, LifecycleEvent::ShutdownDetected) => (
            finished,
            seq![LifecycleAction::StopServing] + stop_sequence(0),
        ),
        (LifecyclePhase::Serving, LifecycleEvent::ServingEnded) => (finished, stop_sequence(0)),
        _ => (m, seq![]),
    }
}

fn push_stop_sequence(actions: &mut Vec<LifecycleAction>, exit_code: u32)
    ensures
        final(actions)@ == old(actions)@ + stop_sequence(exit_code),
{
    actions.push(
        LifecycleAction::Report(
            StatusReport {
                state: ServiceState::StopPending,
                accepts_stop: false,
                exit_code: 0,
                wait_hint_ms: STOP_WAIT_HINT_MS,
            },
        ),
    );
    actions.push(
        LifecycleAction::Report(
            StatusReport {
                state: ServiceState::Stopped,
                accepts_stop: false,
                exit_code,
                wait_hint_ms: 0,
            },
        ),
    );
    actions.push(LifecycleAction::Exit);
    assert(final(actions)@ =~= old(actions)@ + stop_sequence(exit_code));
}

impl ServiceLifecycle {
    /// A service that has not registered its control handler yet.
    pub fn new() -> (r: ServiceLifecycle)
        ensures
            r == initial_lifecycle(),
    {
        ServiceLifecycle { state: ServiceState::Starting, phase: LifecyclePhase::Registering }
    }

    /// Advances on an event and says what to do, in order.
    pub fn step(&mut self, event: LifecycleEvent) -> (r: Vec<LifecycleAction>)
        ensures
            (*final(self), r@) == lifecycle_step(*old(self), event),
    {
        let mut actions: Vec<LifecycleAction> = Vec::new();
        match (self.phase, event) {
            (LifecyclePhase::Registering, LifecycleEvent::HandlerRegistered) => {
                self.state = ServiceState::Running;
                self.phase = LifecyclePhase::Bootstrapping;
                actions.push(
                    LifecycleAction::Report(
                        StatusReport {
                            state: ServiceState::Running,
                            accepts_stop: true,
                            exit_code: 0,
                            wait_hint_ms: 0,
                        },
                    ),
                );
                actions.push(LifecycleAction::RunBootstrap);
            },
            (LifecyclePhase::Bootstrapping, LifecycleEvent::BootstrapFinished { ready }) => {
                if ready {
                    self.phase = LifecyclePhase::Serving;
                    actions.push(LifecycleAction::StartServing);
                } else {
                    self.state = ServiceState::Stopped;
                    self.phase = LifecyclePhase::Finished;
                    push_stop_sequence(&mut actions, BOOTSTRAP_FAILURE_EXIT_CODE);
                }
            },
            (LifecyclePhase::Serving, LifecycleEvent::ShutdownDetected) => {
                self.state = ServiceState::Stopped;
                self.phase = LifecyclePhase::Finished;
                actions.push(LifecycleAction::StopServing);
                push_stop_sequence(&mut actions, 0);
            },
            (LifecyclePhase::Serving, LifecycleEvent::ServingEnded) => {
                self.state = ServiceState::Stopped;
                self.phase = LifecyclePhase::Finished;
                push_stop_sequence(&mut actions, 0);
            },
            _ => {},
        }
        assert(actions@ =~= lifecycle_step(*old(self), event).1);
        actions
    }
}

/// A control request delivered by the OS.
#[derive(PartialEq, Eq, Structural, Clone, Copy, Debug)]
pub enum ControlSignal {
    Stop,
    Interrogate,
    Other,
}

/// The answer given to the OS for a control request.
#[derive(PartialEq, Eq, Structural, Clone, Copy, Debug)]
pub enum ControlReply {
    NoError,
    NotImplemented,
}

/// How a control request is handled: the answer, and whether a shutdown
/// notification is posted to the serving loop.
#[derive(PartialEq, Eq, Structural, Clone, Copy, Debug)]
pub struct ControlDecision {
    pub reply: ControlReply,
    pub notify_shutdown: bool,
}

/// A stop request posts a shutdown notification and is acknowledged; an
/// interrogation is acknowledged with nothing done; anything else is
/// declined.
pub fn handle_control(signal: ControlSignal) -> (r: ControlDecision)
    ensures
        r.notify_shutdown == (signal == ControlSignal::Stop),
        r.reply == (if signal == ControlSignal::Other {
            ControlReply::NotImplemented
        } else {
            ControlReply::NoError
        }),
{
    match signal {
        ControlSignal::Stop => ControlDecision { reply: ControlReply::NoError, notify_shutdown: true },
        ControlSignal::Interrogate => ControlDecision {
            reply: ControlReply::NoError,
            notify_shutdown: false,
        },
        ControlSignal::Other => ControlDecision {
            reply: ControlReply::NotImplemented,
            notify_shutdown: false,
        },
    }
}

/// What the shutdown watcher does after one look at the notification channel.
#[derive(PartialEq, Eq, Structural, Clone, Copy, Debug)]
pub enum WatchDecision {
    /// Stop the listener.
    Stop,
    /// Look again after this many milliseconds.
    WaitMs(u64),
}

/// One look of the shutdown watcher: a pending notification stops the
/// listener at once; otherwise the watcher looks again after the poll
/// interval, so a notification is acted on within one interval.
pub fn watch_shutdown(notified: bool) -> (r: WatchDecision)
    ensures
        notified ==> r == WatchDecision::Stop,
        !notified ==> r == WatchDecision::WaitMs(SHUTDOWN_POLL_MS),
{
    if notified {
        WatchDecision::Stop
    } else {
        WatchDecision::WaitMs(SHUTDOWN_POLL_MS)
    }
}

/// The lifecycle and every action asked for, after a sequence of events from
/// the start.
pub open spec fn lifecycle_run(events: Seq<LifecycleEvent>) -> (
    ServiceLifecycle,
    Seq<LifecycleAction>,
)
    decreases events.len(),
{
    if events.len() == 0 {
        (initial_lifecycle(), seq![])
    } else {
        let prev = lifecycle_run(events.drop_last());
        let next = lifecycle_step(prev.0, events.last());
        (next.0, prev.1 + next.1)
    }
}

pub open spec fn is_stopped_report(a: LifecycleAction) -> bool {
    a matches LifecycleAction::Report(r) && r.state == ServiceState::Stopped
}

pub open spec fn report_rank(a: LifecycleAction) -> int {
    match a {
        LifecycleAction::Report(r) => rank(r.state),
        _ => 0,
    }
}

/// Every exit comes after a report of the stopped state.
pub open spec fn exit_after_stopped(acts: Seq<LifecycleAction>) -> bool {
    forall|i: int|
        0 <= i < acts.len() && #[trigger] acts[i] == LifecycleAction::Exit ==> exists|j: int|
            0 <= j < i && is_stopped_report(#[trigger] acts[j])
}

/// Reported states never move backwards.
pub open spec fn reports_forward(acts: Seq<LifecycleAction>) -> bool {
    forall|i: int, j: int|
        0 <= i < j < acts.len() && (#[trigger] acts[i]) is Report && (#[trigger] acts[j]) is Report
            ==> report_rank(acts[i]) <= report_rank(acts[j])
}

/// An exit, if any, is the last action.
pub open spec fn exit_is_last(acts: Seq<LifecycleAction>) -> bool {
    forall|i: int| 0 <= i < acts.len() && #[trigger] acts[i] == LifecycleAction::Exit ==> i == acts.len() - 1
}

pub open spec fn run_invariant(m: ServiceLifecycle, acts: Seq<LifecycleAction>) -> bool {
    &&& exit_after_stopped(acts)
    &&& reports_forward(acts)
    &&& exit_is_last(acts)
    &&& forall|i: int| 0 <= i < acts.len() && (#[trigger] acts[i]) is Report ==> report_rank(acts[i]) <= rank(m.state)
    &&& forall|i: int| 0 <= i < acts.len() && #[trigger] acts[i] == LifecycleAction::Exit ==> m.phase == LifecyclePhase::Finished
    &&& (m.phase == LifecyclePhase::Finished) == (m.state == ServiceState::Stopped)
    &&& m.phase == LifecyclePhase::Registering ==> m.state == ServiceState::Starting
    &&& (m.phase == LifecyclePhase::Bootstrapping || m.phase == LifecyclePhase::Serving) ==> m.state == ServiceState::Running
}

proof fn lemma_step_preserves(m: ServiceLifecycle, acts: Seq<LifecycleAction>, e: LifecycleEvent)
    requires
        run_invariant(m, acts),
    ensures
        run_invariant(lifecycle_step(m, e).0, acts + lifecycle_step(m, e).1),
{
    let m2 = lifecycle_step(m, e).0;
    let b = lifecycle_step(m, e).1;
    let all = acts + b;
    let n = acts.len() as int;
    assert(forall|k: int| 0 <= k < b.len() && (#[trigger] b[k]) is Report ==> rank(m.state) <= report_rank(b[k]) <= rank(m2.state));
    assert(forall|k: int, l: int| 0 <= k < l < b.len() && (#[trigger] b[k]) is Report && (#[trigger] b[l]) is Report ==> report_rank(b[k]) <= report_rank(b[l]));
    assert(forall|k: int| 0 <= k < b.len() && #[trigger] b[k] == LifecycleAction::Exit ==> k == b.len() - 1 && m2.phase == LifecyclePhase::Finished && is_stopped_report(b[k - 1]));
    assert(m.phase == LifecyclePhase::Finished ==> b.len() == 0);
    assert(rank(m.state) <= rank(m2.state));
    assert forall|i: int| 0 <= i < all.len() && #[trigger] all[i] == LifecycleAction::Exit implies exists|j: int|
        0 <= j < i && is_stopped_report(#[trigger] all[j]) by {
        if i < n {
            assert(acts[i] == LifecycleAction::Exit);
            let j = choose|j: int| 0 <= j < i && is_stopped_report(#[trigger] acts[j]);
            assert(all[j] == acts[j]);
        } else {
            assert(b[i - n] == LifecycleAction::Exit);
            assert(all[i - 1] == b[i - n - 1]);
            assert(is_stopped_report(all[i - 1]));
        }
    }
    assert forall|i: int, j: int|
        0 <= i < j < all.len() && (#[trigger] all[i]) is Report && (#[trigger] all[j]) is Report
        implies report_rank(all[i]) <= report_rank(all[j]) by {
        if j < n {
            assert(all[i] == acts[i] && all[j] == acts[j]);
        } else if i < n {
            assert(all[i] == acts[i] && all[j] == b[j - n]);
        } else {
            assert(all[i] == b[i - n] && all[j] == b[j - n]);
        }
    }
    assert forall|i: int| 0 <= i < all.len() && #[trigger] all[i] == LifecycleAction::Exit implies i == all.len() - 1 && m2.phase == LifecyclePhase::Finished by {
        if i < n {
            assert(acts[i] == LifecycleAction::Exit);
        } else {
            assert(b[i - n] == LifecycleAction::Exit);
        }
    }
    assert forall|i: int| 0 <= i < all.len() && (#[trigger] all[i]) is Report implies report_rank(all[i]) <= rank(m2.state) by {
        if i < n {
            assert(acts[i] == all[i]);
        } else {
            assert(b[i - n] == all[i]);
        }
    }
}

/// Whatever events arrive, the service reports its states only forwards, and
/// it exits only as its last action and only after reporting the stopped
/// state to the OS.
pub proof fn lemma_terminal_state_before_exit(events: Seq<LifecycleEvent>)
    ensures
        exit_after_stopped(lifecycle_run(events).1),
        reports_forward(lifecycle_run(events).1),
        exit_is_last(lifecycle_run(events).1),
        (lifecycle_run(events).0.phase == LifecyclePhase::Finished) == (lifecycle_run(events).0.state
            == ServiceState::Stopped),
{
    lemma_run_reaches_invariant(events);
}

proof fn lemma_run_reaches_invariant(events: Seq<LifecycleEvent>)
    ensures
        run_invariant(lifecycle_run(events).0, lifecycle_run(events).1),
    decreases events.len(),
{
    if events.len() == 0 {
        assert(run_invariant(initial_lifecycle(), seq![]));
    } else {
        lemma_run_reaches_invariant(events.drop_last());
        let prev = lifecycle_run(events.drop_last());
        lemma_step_preserves(prev.0, prev.1, events.last());
    }
}

/// A stop detected while serving stops the listener first, then reports
/// stop-pending and stopped, then exits.
pub proof fn lemma_stop_while_serving(m: ServiceLifecycle)
    requires
        m.phase == LifecyclePhase::Serving,
    ensures
        lifecycle_step(m, LifecycleEvent::ShutdownDetected).1 == seq![
            LifecycleAction::StopServing,
            report(ServiceState::StopPending, false, 0, STOP_WAIT_HINT_MS),
            report(ServiceState::Stopped, false, 0, 0),
            LifecycleAction::Exit,
        ],
        lifecycle_step(m, LifecycleEvent::ShutdownDetected).0.state == ServiceState::Stopped,
{
    assert(lifecycle_step(m, LifecycleEvent::ShutdownDetected).1 =~= seq![
        LifecycleAction::StopServing,
        report(ServiceState::StopPending, false, 0, STOP_WAIT_HINT_MS),
        report(ServiceState::Stopped, false, 0, 0),
        LifecycleAction::Exit,
    ]);
}

} // verus!
