//! The heartbeat task: its one-shot stop handle and the decisions it takes
//! on each timer tick, stop signal and send outcome.
use vstd::prelude::*;

verus! {

/// The sending half of futures_channel's one-shot channel, carried as an opaque value.
#[verifier::external_type_specification]
#[verifier::external_body]
#[verifier::reject_recursive_types(T)]
pub struct ExOneshotSender<T>(futures_channel::oneshot::Sender<T>);

/// Relies on futures_channel::oneshot::Sender::send: hands the stop signal
/// to the receiver; where the receiver is already gone nothing is delivered.
#[verifier::external_body]
fn send_stop_signal(sender: futures_channel::oneshot::Sender<()>) {
    let _ = sender.send(());
}

/// A handle to stop a heartbeat task; it can be used once.
pub struct HeartbeatHandle(futures_channel::oneshot::Sender<()>);

impl HeartbeatHandle {
    /// A handle that signals through `sender`.
    pub fn new(sender: futures_channel::oneshot::Sender<()>) -> (r: HeartbeatHandle) {
        HeartbeatHandle(sender)
    }

    /// Signals the heartbeat task to stop sending frames to the broker.
    pub fn stop(self) {
        send_stop_signal(self.0);
    }
}

/// A heartbeat task: the work that sends the frames, and the handle that
/// stops it until somebody takes it.
pub struct Heartbeat<Pulse> {
    handle: Option<HeartbeatHandle>,
    pulse: Pulse,
}

impl<Pulse> Heartbeat<Pulse> {
    /// The handle the heartbeat still holds, if any.
    pub closed spec fn handle_slot(&self) -> Option<HeartbeatHandle> {
        self.handle
    }

    /// The work that sends the frames.
    pub closed spec fn pulse_of(&self) -> Pulse {
        self.pulse
    }

    /// A task that holds its handle.
    pub fn new(handle: HeartbeatHandle, pulse: Pulse) -> (r: Heartbeat<Pulse>)
        ensures
            r.handle_slot() == Some(handle),
            r.pulse_of() == pulse,
    {
        Heartbeat { handle: Some(handle), pulse }
    }

    /// Gets the handle of the heartbeat. There is one handle per heartbeat: once it has
    /// been taken, this returns `None`.
    pub fn handle(&mut self) -> (r: Option<HeartbeatHandle>)
        ensures
            r == old(self).handle_slot(),
            final(self).handle_slot() is None,
            final(self).pulse_of() == old(self).pulse_of(),
    {
        self.handle.take()
    }

    /// The work that sends the frames, for the caller to schedule.
    pub fn into_pulse(self) -> (r: Pulse)
        ensures
            r == self.pulse_of(),
    {
        self.pulse
    }
}

/// Where the heartbeat task stands.
#[derive(Debug, Clone, Copy, PartialEq, Eq, Structural)]
pub enum PulsePhase {
    /// The interval is zero: no tick ever sends anything.
    Disabled,
    /// Waiting for the next tick.
    Waiting,
    /// A heartbeat frame is being sent.
    Sending,
    /// Stopped by its handle: the task has completed cleanly.
    Stopped,
    /// A send failed: the task has completed with that error.
    Failed,
}

/// What happens to the heartbeat task.
#[derive(Debug, Clone, Copy, PartialEq, Eq, Structural)]
pub enum PulseEvent {
    /// The interval timer fired.
    Tick,
    /// The stop signal arrived.
    Stop,
    /// The heartbeat frame went out.
    SendSucceeded,
    /// Sending the heartbeat frame failed.
    SendFailed,
}

/// What the task does next.
#[derive(Debug, Clone, Copy, PartialEq, Eq, Structural)]
pub enum PulseAction {
    /// Nothing: wait for the next event.
    Idle,
    /// Take the transport's lock, send one heartbeat frame, release the lock.
    SendHeartbeat,
    /// Complete cleanly.
    Finish,
    /// Complete with the error of the failed send.
    Fail,
}

/// The phase a task with this interval starts in.
pub open spec fn initial_phase(interval_secs: u16) -> PulsePhase {
    if interval_secs == 0 {
        PulsePhase::Disabled
    } else {
        PulsePhase::Waiting
    }
}

/// The next phase and the action, when `e` happens in phase `p`. A stop that
/// races with a send completes the task cleanly, not with an error.
pub open spec fn pulse_step(p: PulsePhase, e: PulseEvent) -> (PulsePhase, PulseAction) {
    match p {
        PulsePhase::Stopped => (PulsePhase::Stopped, PulseAction::Finish),
        PulsePhase::Failed => (PulsePhase::Failed, PulseAction::Fail),
        _ => match e {
            PulseEvent::Stop => (PulsePhase::Stopped, PulseAction::Finish),
            PulseEvent::Tick => if p == PulsePhase::Waiting {
                (PulsePhase::Sending, PulseAction::SendHeartbeat)
            } else {
                (p, PulseAction::Idle)
            },
            PulseEvent::SendSucceeded => if p == PulsePhase::Sending {
                (PulsePhase::Waiting, PulseAction::Idle)
            } else {
                (p, PulseAction::Idle)
            },
            PulseEvent::SendFailed => if p == PulsePhase::Sending {
                (PulsePhase::Failed, PulseAction::Fail)
            } else {
                (p, PulseAction::Idle)
            },
        },
    }
}

/// The phase after a sequence of events.
pub open spec fn phase_after(p: PulsePhase, events: Seq<PulseEvent>) -> PulsePhase
    decreases events.len(),
{
    if events.len() == 0 {
        p
    } else {
        pulse_step(phase_after(p, events.drop_last()), events.last()).0
    }
}

/// The action the task takes on the last of `events`, started in phase `p`.
pub open spec fn last_action(p: PulsePhase, events: Seq<PulseEvent>) -> PulseAction
    recommends
        events.len() > 0,
{
    pulse_step(phase_after(p, events.drop_last()), events.last()).1
}

/// The decisions of a heartbeat task with a fixed interval.
pub struct PulseState {
    interval_secs: u16,
    phase: PulsePhase,
}

impl PulseState {
    pub closed spec fn interval_spec(&self) -> u16 {
        self.interval_secs
    }

    pub closed spec fn phase_spec(&self) -> PulsePhase {
        self.phase
    }

    /// A task that ticks every `interval_secs` seconds, starting at once;
    /// with 0 it never sends anything.
    pub fn new(interval_secs: u16) -> (r: PulseState)
        ensures
            r.interval_spec() == interval_secs,
            r.phase_spec() == initial_phase(interval_secs),
    {
        PulseState {
            interval_secs,
            phase: if interval_secs == 0 {
                PulsePhase::Disabled
            } else {
                PulsePhase::Waiting
            },
        }
    }

    pub fn interval_secs(&self) -> (r: u16)
        ensures
            r == self.interval_spec(),
    {
        self.interval_secs
    }

    pub fn phase(&self) -> (r: PulsePhase)
        ensures
            r == self.phase_spec(),
    {
        self.phase
    }

    /// Takes in one event and says what to do.
    pub fn step(&mut self, event: PulseEvent) -> (r: PulseAction)
        ensures
            (final(self).phase_spec(), r) == pulse_step(old(self).phase_spec(), event),
            final(self).interval_spec() == old(self).interval_spec(),
    {
        let (phase, action) = match self.phase {
            PulsePhase::Stopped => (PulsePhase::Stopped, PulseAction::Finish),
            PulsePhase::Failed => (PulsePhase::Failed, PulseAction::Fail),
            p => match event {
                PulseEvent::Stop => (PulsePhase::Stopped, PulseAction::Finish),
                PulseEvent::Tick => match p {
                    PulsePhase::Waiting => (PulsePhase::Sending, PulseAction::SendHeartbeat),
                    _ => (p, PulseAction::Idle),
                },
                PulseEvent::SendSucceeded => match p {
                    PulsePhase::Sending => (PulsePhase::Waiting, PulseAction::Idle),
                    _ => (p, PulseAction::Idle),
                },
                PulseEvent::SendFailed => match p {
                    PulsePhase::Sending => (PulsePhase::Failed, PulseAction::Fail),
                    _ => (p, PulseAction::Idle),
                },
            },
        };
        self.phase = phase;
        action
    }

    /// The task has completed, cleanly or with an error.
    pub fn is_finished(&self) -> (r: bool)
        ensures
            r == (self.phase_spec() is Stopped || self.phase_spec() is Failed),
    {
        matches!(self.phase, PulsePhase::Stopped | PulsePhase::Failed)
    }
}

/// A disabled task stays disabled until it is stopped.
proof fn lemma_disabled_stays(events: Seq<PulseEvent>)
    ensures
        phase_after(PulsePhase::Disabled, events) is Disabled
            || phase_after(PulsePhase::Disabled, events) is Stopped,
    decreases events.len(),
{
    if events.len() > 0 {
        lemma_disabled_stays(events.drop_last());
    }
}

/// With a zero interval the task never sends a heartbeat, whatever happens.
pub proof fn lemma_zero_interval_never_sends(events: Seq<PulseEvent>)
    requires
        events.len() > 0,
    ensures
        last_action(initial_phase(0), events) != PulseAction::SendHeartbeat,
{
    lemma_disabled_stays(events.drop_last());
}

/// A task stopped before its first tick never sends a heartbeat afterwards,
/// and completes cleanly.
pub proof fn lemma_stopped_before_tick(interval_secs: u16, events: Seq<PulseEvent>)
    requires
        events.len() > 0,
        events[0] == PulseEvent::Stop,
    ensures
        phase_after(initial_phase(interval_secs), events) is Stopped,
        forall|k: int|
            1 <= k <= events.len() ==> #[trigger] last_action(
                initial_phase(interval_secs),
                events.subrange(0, k),
            ) == PulseAction::Finish,
    decreases events.len(),
{
    let p0 = initial_phase(interval_secs);
    assert forall|k: int| 1 <= k <= events.len() implies phase_after(
        p0,
        #[trigger] events.subrange(0, k),
    ) is Stopped by {
        lemma_stopped_prefix(p0, events, k);
    }
    assert(events.subrange(0, events.len() as int) =~= events);
    lemma_stopped_prefix(p0, events, events.len() as int);
    assert forall|k: int| 1 <= k <= events.len() implies #[trigger] last_action(
        p0,
        events.subrange(0, k),
    ) == PulseAction::Finish by {
        let s = events.subrange(0, k);
        assert(s.last() == events[k - 1]);
        if k == 1 {
            assert(s.drop_last() =~= Seq::<PulseEvent>::empty());
            assert(phase_after(p0, s.drop_last()) == p0);
        } else {
            lemma_stopped_prefix(p0, events, k - 1);
            assert(events.subrange(0, k).drop_last() =~= events.subrange(0, k - 1));
        }
    }
}

/// Every prefix of a sequence of events that starts with a stop leaves the
/// task stopped.
proof fn lemma_stopped_prefix(p0: PulsePhase, events: Seq<PulseEvent>, k: int)
    requires
        1 <= k <= events.len(),
        events[0] == PulseEvent::Stop,
        !(p0 is Failed),
    ensures
        phase_after(p0, events.subrange(0, k)) is Stopped,
    decreases k,
{
    let s = events.subrange(0, k);
    assert(s.last() == events[k - 1]);
    if k == 1 {
        assert(s.drop_last() =~= Seq::<PulseEvent>::empty());
        assert(phase_after(p0, s.drop_last()) == p0);
    } else {
        lemma_stopped_prefix(p0, events, k - 1);
        assert(s.drop_last() =~= events.subrange(0, k - 1));
    }
}

/// A send that fails ends the task with an error; a stop that comes while a
/// send is under way ends it cleanly instead.
pub proof fn lemma_cancel_distinct_from_failure()
    ensures
        pulse_step(PulsePhase::Sending, PulseEvent::SendFailed) == (
            PulsePhase::Failed,
            PulseAction::Fail,
        ),
        pulse_step(PulsePhase::Sending, PulseEvent::Stop) == (
            PulsePhase::Stopped,
            PulseAction::Finish,
        ),
{
}

} // verus!
