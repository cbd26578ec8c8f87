//! Decisions of the presentation front-end.
//!
//! The screen itself lives outside the library; what is verified here is
//! which events change the picture and which glyphs a temperature is drawn
//! with.

use vstd::prelude::*;
use crate::events::{Event, State};

verus! {

/// What the consumer should show for one event, if anything.
#[derive(Clone, Copy, Debug, PartialEq, Eq, Structural)]
pub enum DisplayCommand {
    /// Show the disconnected icon.
    ShowDisconnected,
    /// Show the connecting icon.
    ShowConnecting,
    /// Show the tip temperature, given in sixteenths of a degree Celsius.
    ShowTemperature { tip_sixteenths: u32 },
}

/// The display command for one session event: state transitions switch the
/// icon, a temperature reading updates the number, and everything else
/// leaves the picture alone.
pub open spec fn spec_display_command(e: Event) -> Option<DisplayCommand> {
    match e {
        Event::State(State::Disconnected) => Some(DisplayCommand::ShowDisconnected),
        Event::State(State::Connecting) => Some(DisplayCommand::ShowConnecting),
        Event::State(State::Connected) => None,
        Event::Temperature { tip_sixteenths, .. } => Some(
            DisplayCommand::ShowTemperature { tip_sixteenths },
        ),
        Event::Battery { .. } => None,
    }
}

/// Decide what to show for one session event.
pub fn display_command(e: &Event) -> (r: Option<DisplayCommand>)
    ensures
        r == spec_display_command(*e),
{
    match e {
        Event::State(State::Disconnected) => Some(DisplayCommand::ShowDisconnected),
        Event::State(State::Connecting) => Some(DisplayCommand::ShowConnecting),
        Event::State(State::Connected) => None,
        Event::Temperature { tip_sixteenths, .. } => Some(
            DisplayCommand::ShowTemperature { tip_sixteenths: *tip_sixteenths },
        ),
        Event::Battery { .. } => None,
    }
}

/// The three glyphs that render a temperature of `sixteenths` sixteenths of
/// a degree: tens digit, ones digit and first decimal digit, with the
/// value capped at 99 degrees.  `1584` sixteenths is exactly 99 degrees.
pub fn glyph_indices(sixteenths: u32) -> (idx: (usize, usize, usize))
    ensures
        idx.0 <= 9 && idx.1 <= 9 && idx.2 <= 9,
        sixteenths > 1584 ==> idx == (9usize, 9usize, 0usize),
        sixteenths <= 1584 ==> idx.0 == (sixteenths / 16) / 10 && idx.1 == (sixteenths / 16) % 10
            && idx.2 == (sixteenths * 10 / 16) % 10,
{
    if sixteenths > 1584 {
        (9, 9, 0)
    } else {
        let degrees: u32 = sixteenths / 16;
        let tenths: u32 = sixteenths * 10 / 16;
        ((degrees / 10) as usize, (degrees % 10) as usize, (tenths % 10) as usize)
    }
}

} // verus!
