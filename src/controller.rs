//! The activation controller: the state machine that brings the workload up
//! from zero replicas and back down, in an order that keeps the routing entry
//! and the toggle consistent.
//!
//! The controller does no work itself. Each event yields a [`Reaction`]: the
//! new toggle level to publish, if it changed, and the one control-plane
//! command to run next. The program runs that command and feeds its outcome
//! back as [`Event::Succeeded`] or [`Event::Failed`]; a failed command is
//! issued again, to be run after a backoff.
use vstd::prelude::*;
use crate::acceptor::{before_dial_spec, ConnAction};
use crate::toggle::Toggle;

verus! {

/// Where an activation stands.
#[derive(Debug, Clone, Copy, PartialEq, Eq, Structural)]
pub enum ActivationStep {
    /// Waiting for `scale(1)` to report a ready replica.
    Scaling,
    /// Waiting for the routing entry to be detached from the service.
    Detaching,
}

/// Where a deactivation stands.
#[derive(Debug, Clone, Copy, PartialEq, Eq, Structural)]
pub enum DeactivationStep {
    /// Waiting for the routing entry to be attached to the service.
    Attaching,
    /// Waiting for `scale(0)` to be accepted.
    Scaling,
}

/// The controller's lifecycle state.
#[derive(Debug, Clone, Copy, PartialEq, Eq, Structural)]
pub enum Phase {
    /// At least one ready replica; traffic passes through.
    Up,
    /// Scale-up in progress; acceptors are parked.
    Activating(ActivationStep),
    /// No replicas; the service routes to the proxy.
    Down,
    /// Scale-down in progress.
    Deactivating(DeactivationStep),
}

/// What the controller reacts to.
#[derive(Debug, Clone, Copy, PartialEq, Eq, Structural)]
pub enum Event {
    /// An acceptor could not reach the backend.
    ConnectionFailed,
    /// The idle watcher saw no backend contact for a whole interval.
    IdleElapsed,
    /// The command last issued completed.
    Succeeded,
    /// The command last issued failed.
    Failed,
}

/// A control-plane operation for the program to run.
#[derive(Debug, Clone, Copy, PartialEq, Eq, Structural)]
pub enum Command {
    /// Nothing to run.
    Idle,
    /// Scale the workload to `replicas` and wait for them to be ready.
    Scale { replicas: i32 },
    /// Label the routing entry so that the service routes to the proxy.
    Attach,
    /// Unlabel the routing entry so that the service routes to its pods.
    Detach,
}

/// The answer to one event: the toggle level to publish first, if the level
/// changed (waking every acceptor parked on it), then the command to run.
#[derive(Debug, Clone, Copy, PartialEq, Eq, Structural)]
pub struct Reaction {
    pub toggle: Option<bool>,
    pub command: Command,
}

/// The controller's state as a plain value.
pub struct ControllerModel {
    pub phase: Phase,
    /// The toggle level; `true` is up.
    pub toggle: bool,
    /// The selector label on the routing entry as the last successful attach
    /// (`Some(true)`) or detach (`Some(false)`) left it; `None` before either.
    pub label: Option<bool>,
    /// A connection failure arrived during a deactivation and still awaits
    /// its activation.
    pub pending: bool,
    /// A `scale(1)` has succeeded since the toggle last went down.
    pub ready: bool,
}

/// The state at process start: optimistically up, routing unknown.
pub open spec fn initial_model() -> ControllerModel {
    ControllerModel { phase: Phase::Up, toggle: true, label: None, pending: false, ready: false }
}

/// The command that starts or retries an activation.
pub open spec fn scale_up() -> Command {
    Command::Scale { replicas: 1 }
}

/// The command that scales the workload to zero.
pub open spec fn scale_down() -> Command {
    Command::Scale { replicas: 0 }
}

/// The transition table.
pub open spec fn next(m: ControllerModel, e: Event) -> (ControllerModel, Reaction) {
    let idle = Reaction { toggle: None, command: Command::Idle };
    match m.phase {
        Phase::Up => match e {
            Event::ConnectionFailed => (
                ControllerModel {
                    phase: Phase::Activating(ActivationStep::Scaling),
                    toggle: false,
                    ready: false,
                    ..m
                },
                Reaction { toggle: Some(false), command: scale_up() },
            ),
            Event::IdleElapsed => (
                ControllerModel { phase: Phase::Deactivating(DeactivationStep::Attaching), ..m },
                Reaction { toggle: None, command: Command::Attach },
            ),
            _ => (m, idle),
        },
        Phase::Activating(ActivationStep::Scaling) => match e {
            Event::Succeeded => (
                ControllerModel {
                    phase: Phase::Activating(ActivationStep::Detaching),
                    ready: true,
                    ..m
                },
                Reaction { toggle: None, command: Command::Detach },
            ),
            Event::Failed => (m, Reaction { toggle: None, command: scale_up() }),
            _ => (m, idle),
        },
        Phase::Activating(ActivationStep::Detaching) => match e {
            Event::Succeeded => (
                ControllerModel { phase: Phase::Up, toggle: true, label: Some(false), ..m },
                Reaction { toggle: Some(true), command: Command::Idle },
            ),
            Event::Failed => (m, Reaction { toggle: None, command: Command::Detach }),
            _ => (m, idle),
        },
        Phase::Down => match e {
            Event::ConnectionFailed => (
                ControllerModel { phase: Phase::Activating(ActivationStep::Scaling), ..m },
                Reaction { toggle: None, command: scale_up() },
            ),
            _ => (m, idle),
        },
        Phase::Deactivating(DeactivationStep::Attaching) => match e {
            Event::Succeeded => (
                ControllerModel {
                    phase: Phase::Deactivating(DeactivationStep::Scaling),
                    label: Some(true),
                    ..m
                },
                Reaction { toggle: None, command: scale_down() },
            ),
            Event::Failed => (m, Reaction { toggle: None, command: Command::Attach }),
            Event::ConnectionFailed => (ControllerModel { pending: true, ..m }, idle),
            Event::IdleElapsed => (m, idle),
        },
        Phase::Deactivating(DeactivationStep::Scaling) => match e {
            Event::Succeeded => if m.pending {
                (
                    ControllerModel {
                        phase: Phase::Activating(ActivationStep::Scaling),
                        toggle: false,
                        pending: false,
                        ready: false,
                        ..m
                    },
                    Reaction { toggle: Some(false), command: scale_up() },
                )
            } else {
                (
                    ControllerModel { phase: Phase::Down, toggle: false, ready: false, ..m },
                    Reaction { toggle: Some(false), command: Command::Idle },
                )
            },
            Event::Failed => (m, Reaction { toggle: None, command: scale_down() }),
            Event::ConnectionFailed => (ControllerModel { pending: true, ..m }, idle),
            Event::IdleElapsed => (m, idle),
        },
    }
}

/// The relations between the phase, the toggle and the routing entry that
/// every reachable state keeps.
pub open spec fn consistent(m: ControllerModel) -> bool {
    &&& m.phase is Up ==> m.toggle && m.label != Some(true) && !m.pending
    &&& m.phase is Down ==> !m.toggle && m.label == Some(true) && !m.pending && !m.ready
    &&& m.phase is Activating ==> !m.toggle && !m.pending
    &&& m.phase == Phase::Activating(ActivationStep::Detaching) ==> m.ready
    &&& m.phase == Phase::Deactivating(DeactivationStep::Attaching) ==> m.toggle && m.label
        != Some(true)
    &&& m.phase == Phase::Deactivating(DeactivationStep::Scaling) ==> m.toggle && m.label
        == Some(true)
}

/// The state after a sequence of events.
pub open spec fn run(m: ControllerModel, events: Seq<Event>) -> ControllerModel
    decreases events.len(),
{
    if events.len() == 0 {
        m
    } else {
        next(run(m, events.drop_last()), events.last()).0
    }
}

/// The reaction to the event at index `k` of a sequence.
pub open spec fn reaction_at(m: ControllerModel, events: Seq<Event>, k: int) -> Reaction {
    next(run(m, events.take(k)), events[k]).1
}

/// The event at index `k` is the success of a `scale(1)`.
pub open spec fn scale_up_succeeds_at(m: ControllerModel, events: Seq<Event>, k: int) -> bool {
    &&& run(m, events.take(k)).phase == Phase::Activating(ActivationStep::Scaling)
    &&& events[k] == Event::Succeeded
}

/// The initial state is consistent.
pub proof fn lemma_initial_consistent()
    ensures
        consistent(initial_model()),
{
}

/// Every transition keeps the state consistent.
pub proof fn lemma_next_consistent(m: ControllerModel, e: Event)
    requires
        consistent(m),
    ensures
        consistent(next(m, e).0),
{
}

/// A toggle level is published exactly when the level changes, and it is the
/// new level.
pub proof fn lemma_publish_on_change(m: ControllerModel, e: Event)
    requires
        consistent(m),
    ensures
        next(m, e).1.toggle == (if next(m, e).0.toggle != m.toggle {
            Some(next(m, e).0.toggle)
        } else {
            None
        }),
{
}

/// Exclusion: outside a deactivation, a toggle that is up means that this
/// process has not attached the routing entry since it last detached it; in
/// the down phase the toggle is down and the entry is attached.
pub proof fn lemma_exclusion(m: ControllerModel)
    requires
        consistent(m),
    ensures
        m.toggle && !(m.phase is Deactivating) ==> m.label != Some(true),
        m.phase is Down ==> !m.toggle && m.label == Some(true),
{
}

/// The toggle rises only on a successful detach that follows a successful
/// `scale(1)`.
pub proof fn lemma_toggle_rises_after_detach(m: ControllerModel, e: Event)
    requires
        consistent(m),
        next(m, e).1.toggle == Some(true),
    ensures
        m.phase == Phase::Activating(ActivationStep::Detaching),
        m.ready,
        e == Event::Succeeded,
        next(m, e).0.label == Some(false),
{
}

/// Connection failures during an activation are absorbed: they change
/// nothing and issue no command. During a deactivation they only leave an
/// activation pending.
pub proof fn lemma_failures_coalesce(m: ControllerModel)
    ensures
        m.phase is Activating ==> next(m, Event::ConnectionFailed) == (
        m,
        Reaction { toggle: None, command: Command::Idle },
        ),
        m.phase is Deactivating ==> next(m, Event::ConnectionFailed) == (
        ControllerModel { pending: true, ..m },
        Reaction { toggle: None, command: Command::Idle },
        ),
{
}

/// A connection that arrives while the workload is down asks for an
/// activation, and that request starts `scale(1)` at once; one that arrives
/// during a deactivation is kept, and `scale(1)` starts as soon as the
/// scale-down completes.
pub proof fn lemma_connection_while_down_activates(m: ControllerModel)
    requires
        consistent(m),
    ensures
        m.phase is Down ==> before_dial_spec(m.toggle) == ConnAction::RequestActivation
            && next(m, Event::ConnectionFailed).1.command == scale_up()
            && next(m, Event::ConnectionFailed).0.phase == Phase::Activating(
            ActivationStep::Scaling,
        ),
        m.phase is Deactivating ==> next(m, Event::ConnectionFailed).0.pending,
        m.phase == Phase::Deactivating(DeactivationStep::Scaling) && m.pending ==> next(
            m,
            Event::Succeeded,
        ).1.command == scale_up(),
{
}

/// One event more is one transition more.
pub proof fn lemma_run_step(m: ControllerModel, events: Seq<Event>, k: int)
    requires
        0 <= k < events.len(),
    ensures
        run(m, events.take(k + 1)) == next(run(m, events.take(k)), events[k]).0,
{
    assert(events.take(k + 1).drop_last() =~= events.take(k));
}

/// Every state reached from a consistent one is consistent.
pub proof fn lemma_run_consistent(m: ControllerModel, events: Seq<Event>)
    requires
        consistent(m),
    ensures
        consistent(run(m, events)),
    decreases events.len(),
{
    if events.len() > 0 {
        lemma_run_consistent(m, events.drop_last());
        lemma_next_consistent(run(m, events.drop_last()), events.last());
    }
}

proof fn lemma_open_until(m: ControllerModel, events: Seq<Event>, i: int, k: int)
    requires
        consistent(m),
        0 <= i < k <= events.len(),
        reaction_at(m, events, i).toggle == Some(true),
    ensures
        (exists|l: int| i < l < k && #[trigger] scale_up_succeeds_at(m, events, l))
            || run(m, events.take(k)).toggle || !run(m, events.take(k)).ready,
    decreases k - i,
{
    lemma_run_consistent(m, events.take(k - 1));
    lemma_run_step(m, events, k - 1);
    if k > i + 1 {
        lemma_open_until(m, events, i, k - 1);
        if scale_up_succeeds_at(m, events, k - 1) {
            assert(i < k - 1 < k && scale_up_succeeds_at(m, events, k - 1));
        }
    }
}

/// Scale-up attempts are coalesced: between any two openings of the toggle
/// there is a successful `scale(1)`, however many connection failures came.
pub proof fn lemma_scale_up_between_openings(
    m: ControllerModel,
    events: Seq<Event>,
    i: int,
    j: int,
)
    requires
        consistent(m),
        0 <= i < j < events.len(),
        reaction_at(m, events, i).toggle == Some(true),
        reaction_at(m, events, j).toggle == Some(true),
    ensures
        exists|k: int| i < k < j && #[trigger] scale_up_succeeds_at(m, events, k),
{
    lemma_open_until(m, events, i, j);
    lemma_run_consistent(m, events.take(j));
}

/// The activation controller.
#[derive(Debug)]
pub struct Controller {
    phase: Phase,
    toggle: Toggle,
    label: Option<bool>,
    pending: bool,
    ready: bool,
}

impl View for Controller {
    type V = ControllerModel;

    closed spec fn view(&self) -> ControllerModel {
        ControllerModel {
            phase: self.phase,
            toggle: self.toggle.level(),
            label: self.label,
            pending: self.pending,
            ready: self.ready,
        }
    }
}

impl Controller {
    /// A controller in its initial state.
    pub fn new() -> (r: Controller)
        ensures
            r@ == initial_model(),
    {
        Controller { phase: Phase::Up, toggle: Toggle::new(true), label: None, pending: false, ready: false }
    }

    /// The current phase.
    pub fn phase(&self) -> (r: Phase)
        ensures
            r == self@.phase,
    {
        self.phase
    }

    /// Whether the toggle is up.
    pub fn toggle_is_up(&self) -> (r: bool)
        ensures
            r == self@.toggle,
    {
        self.toggle.get()
    }

    /// Whether an activation request waits for the deactivation in progress.
    pub fn has_pending_activation(&self) -> (r: bool)
        ensures
            r == self@.pending,
    {
        self.pending
    }

    /// Takes one event and answers with the reaction of the transition
    /// table.
    pub fn step(&mut self, e: Event) -> (r: Reaction)
        ensures
            (final(self)@, r) == next(old(self)@, e),
    {
        let idle = Reaction { toggle: None, command: Command::Idle };
        match self.phase {
            Phase::Up => match e {
                Event::ConnectionFailed => {
                    self.phase = Phase::Activating(ActivationStep::Scaling);
                    self.ready = false;
                    self.toggle.set(false);
                    Reaction { toggle: Some(false), command: Command::Scale { replicas: 1 } }
                },
                Event::IdleElapsed => {
                    self.phase = Phase::Deactivating(DeactivationStep::Attaching);
                    Reaction { toggle: None, command: Command::Attach }
                },
                _ => idle,
            },
            Phase::Activating(ActivationStep::Scaling) => match e {
                Event::Succeeded => {
                    self.phase = Phase::Activating(ActivationStep::Detaching);
                    self.ready = true;
                    Reaction { toggle: None, command: Command::Detach }
                },
                Event::Failed => Reaction { toggle: None, command: Command::Scale { replicas: 1 } },
                _ => idle,
            },
            Phase::Activating(ActivationStep::Detaching) => match e {
                Event::Succeeded => {
                    self.phase = Phase::Up;
                    self.label = Some(false);
                    self.toggle.set(true);
                    Reaction { toggle: Some(true), command: Command::Idle }
                },
                Event::Failed => Reaction { toggle: None, command: Command::Detach },
                _ => idle,
            },
            Phase::Down => match e {
                Event::ConnectionFailed => {
                    self.phase = Phase::Activating(ActivationStep::Scaling);
                    Reaction { toggle: None, command: Command::Scale { replicas: 1 } }
                },
                _ => idle,
            },
            Phase::Deactivating(DeactivationStep::Attaching) => match e {
                Event::Succeeded => {
                    self.phase = Phase::Deactivating(DeactivationStep::Scaling);
                    self.label = Some(true);
                    Reaction { toggle: None, command: Command::Scale { replicas: 0 } }
                },
                Event::Failed => Reaction { toggle: None, command: Command::Attach },
                Event::ConnectionFailed => {
                    self.pending = true;
                    idle
                },
                Event::IdleElapsed => idle,
            },
            Phase::Deactivating(DeactivationStep::Scaling) => match e {
                Event::Succeeded => {
                    self.toggle.set(false);
                    self.ready = false;
                    if self.pending {
                        self.pending = false;
                        self.phase = Phase::Activating(ActivationStep::Scaling);
                        Reaction { toggle: Some(false), command: Command::Scale { replicas: 1 } }
                    } else {
                        self.phase = Phase::Down;
                        Reaction { toggle: Some(false), command: Command::Idle }
                    }
                },
                Event::Failed => Reaction { toggle: None, command: Command::Scale { replicas: 0 } },
                Event::ConnectionFailed => {
                    self.pending = true;
                    idle
                },
                Event::IdleElapsed => idle,
            },
        }
    }
}

} // verus!
