//! The composed session: the supervisor and the event channel together.
//!
//! The session is the linearization point of the system.  Supervisor steps
//! put their state-transition events straight into the channel, and a
//! listener hands its decoded readings in through [`Session::deliver`],
//! which accepts them only from the one active listener generation.  The
//! consumer drains the channel in emission order.
//!
//! This is what makes supersession observably effective: the supervisor
//! retires a generation and emits the next state transition in one step,
//! so an event of a superseded listener can never reach the channel after
//! that transition.

use vstd::prelude::*;
use crate::channel::{Channel, CAPACITY};
use crate::codec::SensorReading;
use crate::events::{spec_reading_event, reading_event, Event, State};
use crate::supervisor::{
    spec_adapter_step,
    spec_connect_step,
    Action,
    AdapterEvent,
    Supervisor,
    SupervisorView,
};

verus! {

/// The mathematical state of a session: the supervisor's state and the
/// pending events, oldest first.
pub ghost struct SessionView {
    pub sup: SupervisorView,
    pub chan: Seq<Event>,
}

impl SessionView {
    /// Well-formedness of both halves.
    pub open spec fn wf(self) -> bool {
        self.sup.wf() && self.chan.len() <= CAPACITY
    }
}

/// One session with the single target device.
pub struct Session {
    sup: Supervisor,
    chan: Channel,
}

impl View for Session {
    type V = SessionView;

    closed spec fn view(&self) -> SessionView {
        SessionView { sup: self.sup@, chan: self.chan@ }
    }
}

impl Session {
    /// A fresh session: disconnected, no listener, nothing pending.
    pub fn new() -> (s: Session)
        ensures
            s@.sup == (SupervisorView { state: State::Disconnected, active: None, next_gen: 0 }),
            s@.chan == Seq::<Event>::empty(),
            s@.wf(),
    {
        Session { sup: Supervisor::new(), chan: Channel::new() }
    }

    /// The current connection state.
    pub fn state(&self) -> (r: State)
        ensures
            r == self@.sup.state,
    {
        self.sup.state()
    }

    /// Announce the initial state to the consumer, as the session does once
    /// on startup.
    pub fn start(&mut self) -> (ok: bool)
        requires
            old(self)@.wf(),
            old(self)@.chan.len() < CAPACITY,
        ensures
            final(self)@.wf(),
            final(self)@.sup == old(self)@.sup,
            final(self)@.chan == old(self)@.chan.push(Event::State(State::Disconnected)),
            ok,
    {
        self.chan.try_send(Event::State(State::Disconnected))
    }

    /// Feed one adapter lifecycle event to the supervisor; its state
    /// transition event, if any, goes into the channel, and the returned
    /// actions are for the caller, cancellations first.
    pub fn on_adapter_event(&mut self, ev: &AdapterEvent) -> (acts: Vec<Action>)
        requires
            old(self)@.wf(),
            old(self)@.chan.len() < CAPACITY,
        ensures
            final(self)@.wf(),
            ({
                let (v2, sacts, emitted) = spec_adapter_step(old(self)@.sup, *ev);
                &&& final(self)@.sup == v2
                &&& acts@ == sacts
                &&& final(self)@.chan == (match emitted {
                    Some(e) => old(self)@.chan.push(e),
                    None => old(self)@.chan,
                })
            }),
            forall|g: u64| old(self)@.sup.retired(g) ==> final(self)@.sup.retired(g),
    {
        let (acts, emitted) = self.sup.on_adapter_event(ev);
        if let Some(e) = emitted {
            let _ = self.chan.try_send(e);
        }
        acts
    }

    /// Feed the outcome of a connection attempt to the supervisor, in the
    /// same way.
    pub fn on_connect_result(&mut self, success: bool) -> (acts: Vec<Action>)
        requires
            old(self)@.wf(),
            old(self)@.chan.len() < CAPACITY,
            old(self)@.sup.next_gen < u64::MAX,
        ensures
            final(self)@.wf(),
            ({
                let (v2, sacts, emitted) = spec_connect_step(old(self)@.sup, success);
                &&& final(self)@.sup == v2
                &&& acts@ == sacts
                &&& final(self)@.chan == (match emitted {
                    Some(e) => old(self)@.chan.push(e),
                    None => old(self)@.chan,
                })
            }),
            forall|g: u64| old(self)@.sup.retired(g) ==> final(self)@.sup.retired(g),
    {
        let (acts, emitted) = self.sup.on_connect_result(success);
        if let Some(e) = emitted {
            let _ = self.chan.try_send(e);
        }
        acts
    }

    /// A listener of generation `gen` hands in one decoded reading.
    ///
    /// The reading is accepted only from the active listener generation and
    /// only while the channel has room; a reading from a superseded
    /// listener changes nothing, and a reading refused for want of room is
    /// retried by the blocked listener, never dropped.
    pub fn deliver(&mut self, gen: u64, reading: &SensorReading) -> (accepted: bool)
        requires
            old(self)@.wf(),
        ensures
            final(self)@.wf(),
            final(self)@.sup == old(self)@.sup,
            accepted == (old(self)@.sup.active == Some(gen) && old(self)@.chan.len() < CAPACITY),
            accepted ==> final(self)@.chan == old(self)@.chan.push(spec_reading_event(*reading)),
            !accepted ==> final(self)@.chan == old(self)@.chan,
            old(self)@.sup.retired(gen) ==> !accepted,
    {
        match self.sup.active_gen() {
            Some(g) => if g == gen {
                self.chan.try_send(reading_event(reading))
            } else {
                false
            },
            None => false,
        }
    }

    /// The consumer takes the oldest pending event, if any.
    pub fn next_event(&mut self) -> (r: Option<Event>)
        requires
            old(self)@.wf(),
        ensures
            final(self)@.wf(),
            final(self)@.sup == old(self)@.sup,
            old(self)@.chan.len() == 0 ==> r is None && final(self)@.chan == old(self)@.chan,
            old(self)@.chan.len() > 0 ==> r == Some(old(self)@.chan[0]) && final(self)@.chan
                == old(self)@.chan.drop_first(),
    {
        self.chan.recv()
    }
}

} // verus!
