//! End-to-end tests of the composed session: ordering, the single-listener
//! invariant, and supersession.

use meater::codec::{decode, SensorReading, BATTERY_CHARACTERISTIC, TEMPERATURE_CHARACTERISTIC};
use meater::events::{Event, State};
use meater::session::Session;
use meater::supervisor::{Action, AdapterEvent};

fn target() -> Option<String> {
    Some("MEATER".to_owned())
}

fn drain(s: &mut Session) -> Vec<Event> {
    let mut out = Vec::new();
    while let Some(e) = s.next_event() {
        out.push(e);
    }
    out
}

#[test]
fn startup_announces_disconnected() {
    let mut s = Session::new();
    assert!(s.start());
    assert_eq!(drain(&mut s), vec![Event::State(State::Disconnected)]);
}

#[test]
fn scripted_session_is_observed_in_order() {
    let mut s = Session::new();

    // Discovered(A) -> connect success -> notify(temp) -> notify(battery)
    // -> Disconnected(A).
    let acts = s.on_adapter_event(&AdapterEvent::Discovered { name: target() });
    assert_eq!(acts, vec![Action::Connect]);

    let acts = s.on_connect_result(true);
    assert_eq!(acts, vec![Action::SpawnListener { gen: 0 }]);

    let temp = decode(TEMPERATURE_CHARACTERISTIC, &[0xb0, 0x04, 0, 0, 0, 0, 0, 0]).unwrap();
    assert!(s.deliver(0, &temp));
    let batt = decode(BATTERY_CHARACTERISTIC, &[7, 0]).unwrap();
    assert!(s.deliver(0, &batt));

    let acts = s.on_adapter_event(&AdapterEvent::Disconnected { name: target() });
    assert_eq!(acts, vec![Action::CancelListener { gen: 0 }]);

    // The consumer observes exactly this, in this order.
    assert_eq!(
        drain(&mut s),
        vec![
            Event::State(State::Connecting),
            Event::State(State::Connected),
            Event::Temperature { tip_sixteenths: 1208, ambient_sixteenths: 1208 },
            Event::Battery { percent: 70 },
            Event::State(State::Disconnected),
        ]
    );
}

#[test]
fn malformed_payload_reaches_nobody() {
    let mut s = Session::new();
    let _ = s.on_adapter_event(&AdapterEvent::Discovered { name: target() });
    let _ = s.on_connect_result(true);
    drain(&mut s);

    // A malformed temperature payload decodes to no reading; the listener
    // has nothing to deliver and the consumer sees nothing.
    assert_eq!(decode(TEMPERATURE_CHARACTERISTIC, &[0xb0, 0x04, 0]), None);
    assert_eq!(drain(&mut s), vec![]);
}

#[test]
fn superseded_listener_is_silenced() {
    let mut s = Session::new();
    let _ = s.on_adapter_event(&AdapterEvent::Discovered { name: target() });
    let _ = s.on_connect_result(true);
    let old_gen: u64 = 0;

    // The device is rediscovered while connected: supersession.
    let acts = s.on_adapter_event(&AdapterEvent::Discovered { name: target() });
    assert_eq!(
        acts,
        vec![Action::CancelListener { gen: old_gen }, Action::Connect]
    );
    let acts = s.on_connect_result(true);
    let new_gen: u64 = 1;
    assert_eq!(acts, vec![Action::SpawnListener { gen: new_gen }]);

    // Whatever the superseded listener still tries to deliver is refused;
    // the replacement's readings get through.
    let stale = SensorReading::Battery { percent: 10 };
    assert!(!s.deliver(old_gen, &stale));
    let fresh = SensorReading::Battery { percent: 90 };
    assert!(s.deliver(new_gen, &fresh));

    // After the supersession transition the consumer sees no event of the
    // old listener, only the new listener's.
    assert_eq!(
        drain(&mut s),
        vec![
            Event::State(State::Connecting),
            Event::State(State::Connected),
            Event::State(State::Connecting),
            Event::State(State::Connected),
            Event::Battery { percent: 90 },
        ]
    );
}

#[test]
fn only_one_listener_accepted_at_a_time() {
    let mut s = Session::new();
    let _ = s.on_adapter_event(&AdapterEvent::Discovered { name: target() });
    let _ = s.on_connect_result(true);

    // Generations other than the one active listener are refused, cancelled
    // or never spawned alike.
    let reading = SensorReading::Battery { percent: 50 };
    assert!(!s.deliver(7, &reading));
    assert!(!s.deliver(1, &reading));
    assert!(s.deliver(0, &reading));
}

#[test]
fn no_listener_when_disconnected() {
    let mut s = Session::new();
    let reading = SensorReading::Battery { percent: 50 };
    assert!(!s.deliver(0, &reading));
    assert_eq!(drain(&mut s), vec![]);
}
