//! Session manager for a wireless kitchen temperature probe.
//!
//! The library holds the verified core of the system: the notification
//! decoder that turns raw characteristic payloads into typed sensor
//! readings, the connection supervisor that reacts to radio-adapter
//! lifecycle events, the bounded event channel that carries session
//! events to the consumer in emission order, and the composed session
//! model that ties the three together.  The radio binding, the async
//! plumbing and the screen live outside the library and drive it
//! through plain values.

pub mod channel;
pub mod codec;
pub mod display;
pub mod events;
pub mod session;
pub mod supervisor;
