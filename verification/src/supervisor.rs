//! The connection supervisor: the state machine of the one logical device
//! slot.
//!
//! The supervisor owns the connection state and the handle of the at most
//! one background listener.  It reacts to radio-adapter lifecycle events
//! and to connect outcomes; each step returns the actions the surrounding
//! loop must carry out (cancel a listener, attempt a connection, spawn a
//! listener, wait and retry) and at most one event for the consumer.  The
//! caller performs the cancellations first, then forwards the event, then
//! the remaining actions, in order.
//!
//! Listeners are identified by generation numbers that are never reused:
//! superseding a listener retires its generation for good, which is what
//! makes cancellation observably effective.

use vstd::prelude::*;
use crate::events::{Event, State};

verus! {

/// A lifecycle event of the radio adapter, with the advertised local name
/// of the peripheral it concerns already resolved (`None` when the
/// peripheral advertises no name).  Identity is revalidated on every event,
/// so each variant carries the name anew.
#[derive(Debug)]
pub enum AdapterEvent {
    /// A peripheral was discovered.
    Discovered { name: Option<String> },
    /// A known peripheral announced itself again.
    Updated { name: Option<String> },
    /// The adapter reports a peripheral as connected.
    Connected { name: Option<String> },
    /// The adapter reports a peripheral as disconnected.
    Disconnected { name: Option<String> },
}

/// An action the surrounding loop must carry out after a supervisor step.
#[derive(Clone, Copy, Debug, PartialEq, Eq, Structural)]
pub enum Action {
    /// Attempt to connect to the candidate peripheral, then report the
    /// outcome through `on_connect_result`.
    Connect,
    /// Wait a short backoff, then attempt the connection again.
    Retry,
    /// Cancel the listener of the given generation; nothing it produces
    /// after this may reach the consumer.
    CancelListener { gen: u64 },
    /// Start the one listener of the given generation for the newly
    /// connected peripheral.
    SpawnListener { gen: u64 },
}

/// The mathematical state of the supervisor.
pub ghost struct SupervisorView {
    pub state: State,
    pub active: Option<u64>,
    pub next_gen: u64,
}

impl SupervisorView {
    /// Well-formedness: generations are handed out in order, and while a
    /// connection attempt is in flight no listener is active.
    pub open spec fn wf(self) -> bool {
        &&& (self.active matches Some(g) ==> g < self.next_gen)
        &&& (self.state is Connecting ==> self.active is None)
    }

    /// A generation that was handed out and is no longer active.  Retired
    /// generations stay retired: their listeners are cancelled and never
    /// heard from again.
    pub open spec fn retired(self, g: u64) -> bool {
        g < self.next_gen && self.active != Some(g)
    }
}

/// Whether an advertised name identifies the target device: the local name
/// must equal the fixed device-class name exactly.
pub open spec fn spec_is_target(name: Option<String>) -> bool {
    name matches Some(n) && n@ == "MEATER"@
}

/// Decide whether an advertised local name identifies the target device.
pub fn is_target_name(name: &Option<String>) -> (r: bool)
    ensures
        r == spec_is_target(*name),
{
    match name {
        Some(n) => {
            let target: String = "MEATER".to_owned();
            n.eq(&target)
        },
        None => false,
    }
}

/// The step taken when the target device is discovered or announces itself
/// again: supersede any running listener, move to `Connecting`, and ask the
/// caller to connect.
pub open spec fn spec_candidate_step(v: SupervisorView) -> (SupervisorView, Seq<Action>, Option<
    Event,
>) {
    (
        SupervisorView { state: State::Connecting, active: None, ..v },
        match v.active {
            Some(g) => seq![Action::CancelListener { gen: g }, Action::Connect],
            None => seq![Action::Connect],
        },
        Some(Event::State(State::Connecting)),
    )
}

/// The supervisor's reaction to one adapter lifecycle event: the new state,
/// the actions for the caller, and the event for the consumer, if any.
/// Events for peripherals that are not the target change nothing.
pub open spec fn spec_adapter_step(v: SupervisorView, ev: AdapterEvent) -> (SupervisorView, Seq<
    Action,
>, Option<Event>) {
    match ev {
        AdapterEvent::Discovered { name } => if spec_is_target(name) {
            spec_candidate_step(v)
        } else {
            (v, Seq::empty(), None)
        },
        AdapterEvent::Updated { name } => if spec_is_target(name) {
            spec_candidate_step(v)
        } else {
            (v, Seq::empty(), None)
        },
        AdapterEvent::Connected { name } => if spec_is_target(name) && v.state is Connecting {
            (
                SupervisorView { state: State::Connected, ..v },
                Seq::empty(),
                Some(Event::State(State::Connected)),
            )
        } else {
            (v, Seq::empty(), None)
        },
        AdapterEvent::Disconnected { name } => if spec_is_target(name) {
            (
                SupervisorView { state: State::Disconnected, active: None, ..v },
                match v.active {
                    Some(g) => seq![Action::CancelListener { gen: g }],
                    None => Seq::empty(),
                },
                Some(Event::State(State::Disconnected)),
            )
        } else {
            (v, Seq::empty(), None)
        },
    }
}

/// The supervisor's reaction to the outcome of a connection attempt: on
/// success the one listener is spawned and the state becomes `Connected`;
/// a failed attempt is retried after a backoff for as long as the candidate
/// is still being connected; anything else is a stale outcome and is
/// ignored.
pub open spec fn spec_connect_step(v: SupervisorView, success: bool) -> (SupervisorView, Seq<
    Action,
>, Option<Event>) {
    if success && v.next_gen < u64::MAX && (v.state is Connecting || (v.state is Connected
        && v.active is None)) {
        (
            SupervisorView {
                state: State::Connected,
                active: Some(v.next_gen),
                next_gen: (v.next_gen + 1) as u64,
            },
            seq![Action::SpawnListener { gen: v.next_gen }],
            if v.state is Connecting {
                Some(Event::State(State::Connected))
            } else {
                None
            },
        )
    } else if !success && v.state is Connecting {
        (v, seq![Action::Retry], None)
    } else {
        (v, Seq::empty(), None)
    }
}

/// The connection supervisor of one session.
pub struct Supervisor {
    state: State,
    active: Option<u64>,
    next_gen: u64,
}

impl View for Supervisor {
    type V = SupervisorView;

    closed spec fn view(&self) -> SupervisorView {
        SupervisorView { state: self.state, active: self.active, next_gen: self.next_gen }
    }
}

impl Supervisor {
    /// A fresh supervisor: disconnected, with no listener yet.
    pub fn new() -> (s: Supervisor)
        ensures
            s@ == (SupervisorView { state: State::Disconnected, active: None, next_gen: 0 }),
            s@.wf(),
    {
        Supervisor { state: State::Disconnected, active: None, next_gen: 0 }
    }

    /// The current connection state.
    pub fn state(&self) -> (r: State)
        ensures
            r == self@.state,
    {
        self.state
    }

    /// The generation of the active listener, if one is running.
    pub fn active_gen(&self) -> (r: Option<u64>)
        ensures
            r == self@.active,
    {
        self.active
    }

    /// The generation the next listener would get.  Callers of
    /// `on_connect_result` check it against the counter's limit.
    pub fn next_gen(&self) -> (r: u64)
        ensures
            r == self@.next_gen,
    {
        self.next_gen
    }

    /// React to one adapter lifecycle event, as `spec_adapter_step` says.
    pub fn on_adapter_event(&mut self, ev: &AdapterEvent) -> (r: (Vec<Action>, Option<Event>))
        ensures
            ({
                let (v2, acts, emitted) = spec_adapter_step(old(self)@, *ev);
                &&& final(self)@ == v2
                &&& r.0@ == acts
                &&& r.1 == emitted
            }),
            old(self)@.wf() ==> final(self)@.wf(),
            forall|g: u64| old(self)@.retired(g) ==> final(self)@.retired(g),
    {
        match ev {
            AdapterEvent::Discovered { name } => if is_target_name(name) {
                self.candidate_step()
            } else {
                (Vec::new(), None)
            },
            AdapterEvent::Updated { name } => if is_target_name(name) {
                self.candidate_step()
            } else {
                (Vec::new(), None)
            },
            AdapterEvent::Connected { name } => if is_target_name(name) && matches!(
                self.state,
                State::Connecting,
            ) {
                self.state = State::Connected;
                (Vec::new(), Some(Event::State(State::Connected)))
            } else {
                (Vec::new(), None)
            },
            AdapterEvent::Disconnected { name } => if is_target_name(name) {
                let mut acts: Vec<Action> = Vec::new();
                if let Some(g) = self.active {
                    acts.push(Action::CancelListener { gen: g });
                }
                self.state = State::Disconnected;
                self.active = None;
                (acts, Some(Event::State(State::Disconnected)))
            } else {
                (Vec::new(), None)
            },
        }
    }

    /// React to the outcome of a connection attempt, as `spec_connect_step`
    /// says.
    pub fn on_connect_result(&mut self, success: bool) -> (r: (Vec<Action>, Option<Event>))
        requires
            old(self)@.next_gen < u64::MAX,
        ensures
            ({
                let (v2, acts, emitted) = spec_connect_step(old(self)@, success);
                &&& final(self)@ == v2
                &&& r.0@ == acts
                &&& r.1 == emitted
            }),
            old(self)@.wf() ==> final(self)@.wf(),
            forall|g: u64| old(self)@.retired(g) ==> final(self)@.retired(g),
    {
        let connecting = matches!(self.state, State::Connecting);
        let idle_connected = matches!(self.state, State::Connected) && self.active.is_none();
        if success && (connecting || idle_connected) {
            let gen: u64 = self.next_gen;
            self.state = State::Connected;
            self.active = Some(gen);
            self.next_gen = gen + 1;
            let mut acts: Vec<Action> = Vec::new();
            acts.push(Action::SpawnListener { gen });
            let emitted = if connecting {
                Some(Event::State(State::Connected))
            } else {
                None
            };
            (acts, emitted)
        } else if !success && connecting {
            let mut acts: Vec<Action> = Vec::new();
            acts.push(Action::Retry);
            (acts, None)
        } else {
            (Vec::new(), None)
        }
    }

    fn candidate_step(&mut self) -> (r: (Vec<Action>, Option<Event>))
        ensures
            ({
                let (v2, acts, emitted) = spec_candidate_step(old(self)@);
                &&& final(self)@ == v2
                &&& r.0@ == acts
                &&& r.1 == emitted
            }),
    {
        let mut acts: Vec<Action> = Vec::new();
        if let Some(g) = self.active {
            acts.push(Action::CancelListener { gen: g });
        }
        acts.push(Action::Connect);
        self.state = State::Connecting;
        self.active = None;
        (acts, Some(Event::State(State::Connecting)))
    }
}

/// At most one listener is ever active: the supervisor spawns a listener
/// only in a state in which none is active, so a new listener never runs
/// beside an old one.
pub proof fn lemma_single_listener(v: SupervisorView, success: bool)
    requires
        v.wf(),
    ensures
        ({
            let (v2, acts, emitted) = spec_connect_step(v, success);
            &&& (acts.contains(Action::SpawnListener { gen: v.next_gen }) ==> v.active is None)
            &&& v2.wf()
        }),
{
}

/// Supersession retires the running listener: when the target device is
/// discovered again while a listener is active, the step cancels that
/// listener first and leaves none active, and its generation is retired.
pub proof fn lemma_supersession_retires(v: SupervisorView, ev: AdapterEvent, g: u64)
    requires
        v.wf(),
        v.active == Some(g),
        (ev matches AdapterEvent::Discovered { name } && spec_is_target(name)) || (
        ev matches AdapterEvent::Updated { name } && spec_is_target(name)),
    ensures
        ({
            let (v2, acts, emitted) = spec_adapter_step(v, ev);
            &&& v2.active is None
            &&& v2.retired(g)
            &&& acts[0] == (Action::CancelListener { gen: g })
        }),
{
}

/// A retired generation stays retired across every adapter event: once a
/// listener is superseded or stopped, no later lifecycle event makes its
/// generation active again.
pub proof fn lemma_retired_stays_retired_adapter(v: SupervisorView, ev: AdapterEvent, g: u64)
    requires
        v.retired(g),
    ensures
        spec_adapter_step(v, ev).0.retired(g),
{
}

/// A retired generation stays retired across every connect outcome: a newly
/// spawned listener always gets a generation that was never used before.
pub proof fn lemma_retired_stays_retired_connect(v: SupervisorView, success: bool, g: u64)
    requires
        v.retired(g),
    ensures
        spec_connect_step(v, success).0.retired(g),
{
}

/// One input to the supervisor: a lifecycle event of the adapter, or the
/// outcome of a connection attempt.
pub ghost enum SupervisorInput {
    Adapter(AdapterEvent),
    ConnectResult(bool),
}

/// One supervisor step on either kind of input.
pub open spec fn spec_step(v: SupervisorView, i: SupervisorInput) -> (SupervisorView, Seq<
    Action,
>, Option<Event>) {
    match i {
        SupervisorInput::Adapter(ev) => spec_adapter_step(v, ev),
        SupervisorInput::ConnectResult(success) => spec_connect_step(v, success),
    }
}

/// The state the supervisor reaches from `v` after taking the inputs in
/// order.
pub open spec fn spec_run(v: SupervisorView, inputs: Seq<SupervisorInput>) -> SupervisorView
    decreases inputs.len(),
{
    if inputs.len() == 0 {
        v
    } else {
        spec_run(spec_step(v, inputs[0]).0, inputs.drop_first())
    }
}

/// Well-formedness is an invariant of the supervisor: every state reached
/// from a well-formed state, by any sequence of inputs, is well-formed.  In
/// particular, at every instant at most one listener generation is active.
pub proof fn lemma_run_wf(v: SupervisorView, inputs: Seq<SupervisorInput>)
    requires
        v.wf(),
    ensures
        spec_run(v, inputs).wf(),
    decreases inputs.len(),
{
    if inputs.len() > 0 {
        lemma_run_wf(spec_step(v, inputs[0]).0, inputs.drop_first());
    }
}

/// Cancellation is permanent: a retired listener generation is still
/// retired after any further sequence of inputs.  A superseded or stopped
/// listener never becomes the active one again, so nothing it produces is
/// ever accepted again.
pub proof fn lemma_run_retired(v: SupervisorView, inputs: Seq<SupervisorInput>, g: u64)
    requires
        v.retired(g),
    ensures
        spec_run(v, inputs).retired(g),
    decreases inputs.len(),
{
    if inputs.len() > 0 {
        lemma_run_retired(spec_step(v, inputs[0]).0, inputs.drop_first(), g);
    }
}

} // verus!
