//! The session's outward-facing event types.
//!
//! The consumer sees the session only through an ordered stream of
//! [`Event`] values: connection-state transitions and decoded sensor
//! readings.  Events carry plain integers only, so that every field means
//! exactly what the decoder computed.

use vstd::prelude::*;
use crate::codec::SensorReading;

verus! {

/// The connection state of the one logical device slot.
#[derive(Clone, Copy, Debug, PartialEq, Eq, Structural)]
pub enum State {
    Disconnected,
    Connecting,
    Connected,
}

/// An event emitted by the session towards the consumer.
///
/// Temperatures are in sixteenths of a degree Celsius, as produced by the
/// decoder; the battery level is a percentage.
#[derive(Clone, Copy, Debug, PartialEq, Eq, Structural)]
pub enum Event {
    /// The connection state changed.
    State(State),
    /// The temperature changed.
    Temperature { tip_sixteenths: u32, ambient_sixteenths: u32 },
    /// The battery level changed.
    Battery { percent: u16 },
}

/// The event that carries a decoded sensor reading.
pub open spec fn spec_reading_event(r: SensorReading) -> Event {
    match r {
        SensorReading::Temperature { tip_sixteenths, ambient_sixteenths } => Event::Temperature {
            tip_sixteenths,
            ambient_sixteenths,
        },
        SensorReading::Battery { percent } => Event::Battery { percent },
    }
}

/// Translate a decoded sensor reading into the event the consumer sees.
pub fn reading_event(r: &SensorReading) -> (e: Event)
    ensures
        e == spec_reading_event(*r),
{
    match r {
        SensorReading::Temperature { tip_sixteenths, ambient_sixteenths } => Event::Temperature {
            tip_sixteenths: *tip_sixteenths,
            ambient_sixteenths: *ambient_sixteenths,
        },
        SensorReading::Battery { percent } => Event::Battery { percent: *percent },
    }
}

} // verus!
