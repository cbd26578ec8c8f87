//! Decoding of raw characteristic notifications into typed sensor readings.
//!
//! The probe pushes little 16-bit fields packed as byte pairs.  Temperatures
//! travel on one characteristic as an 8-byte payload, the battery level on
//! another as a payload of at least two bytes.  Decoding is pure: the same
//! identifier and the same bytes always give the same reading.
//!
//! Temperatures are carried in sixteenths of a degree Celsius, so that a
//! raw field value `x` stands for `(x + 8) / 16` degrees; `8` sixteenths is
//! half a degree.  This keeps every value an exact integer.

use vstd::prelude::*;

verus! {

/// Identifier of the service the probe advertises, written as the 128-bit
/// big-endian value of its UUID.  Scans filter on it.
pub const SERVICE_ID: u128 = 0xa75cc7fc_c956_488f_ac2a_2dbc08b63a04;

/// Identifier of the characteristic that notifies battery levels.
pub const BATTERY_CHARACTERISTIC: u128 = 0x2adb4877_68d8_4884_bd3c_d83853bf27b8;

/// Identifier of the characteristic that notifies temperatures.
pub const TEMPERATURE_CHARACTERISTIC: u128 = 0x7edda774_045e_4bbf_909b_45d1991a2876;

/// The notify bit of a characteristic's properties byte: only
/// characteristics with this bit set can push notifications.
pub const NOTIFY_FLAG: u8 = 0x10;

/// A decoded sensor value.
///
/// Temperatures are in sixteenths of a degree Celsius; the battery level is
/// a percentage between 0 and 100.
#[derive(Clone, Copy, Debug, PartialEq, Eq, Structural)]
pub enum SensorReading {
    Temperature { tip_sixteenths: u32, ambient_sixteenths: u32 },
    Battery { percent: u16 },
}

/// The 16-bit value whose high byte is `msb` and low byte is `lsb`.
pub open spec fn spec_combine(msb: u8, lsb: u8) -> int {
    msb * 256 + lsb
}

/// Combine two bytes into one 16-bit value, `msb` high and `lsb` low.
pub fn to_u16(msb: u8, lsb: u8) -> (r: u16)
    ensures
        r == spec_combine(msb, lsb),
{
    (msb as u16) * 256 + (lsb as u16)
}

/// A raw temperature field in sixteenths of a degree Celsius: raw value `x`
/// stands for `(x + 8) / 16` degrees, so the sixteenths count is `x + 8`.
pub open spec fn spec_sixteenths(raw: int) -> int {
    raw + 8
}

/// Sixteenths of a degree Celsius for the raw field value `raw`.
pub fn celsius_sixteenths(raw: u16) -> (r: u32)
    ensures
        r == spec_sixteenths(raw as int),
{
    raw as u32 + 8
}

/// The raw ambient temperature derived from the raw tip temperature `tip`
/// and the two correction fields `ra` and `oa`: the correction term
/// `(ra - min(48, oa)) * 16 * 589 / 1487` is clamped to zero from below and
/// added to the tip value, with truncating integer division.
pub open spec fn spec_ambient_raw(tip: int, ra: int, oa: int) -> int {
    let floor = if oa < 48 { oa } else { 48 };
    let diff = if ra >= floor { ra - floor } else { 0 };
    tip + diff * 16 * 589 / 1487
}

/// The battery percentage for the raw battery unit `raw`: one unit is ten
/// percent, and the value is capped at 100.
pub open spec fn spec_battery_percent(raw: int) -> int {
    if raw <= 10 {
        raw * 10
    } else {
        100
    }
}

/// What `decode` returns: a temperature reading for an 8-byte payload on
/// the temperature characteristic, a battery reading for a payload of at
/// least two bytes on the battery characteristic, and nothing otherwise.
pub open spec fn spec_decode(characteristic: u128, payload: Seq<u8>) -> Option<SensorReading> {
    if characteristic == TEMPERATURE_CHARACTERISTIC {
        if payload.len() == 8 {
            let tip = spec_combine(payload[1], payload[0]);
            let ra = spec_combine(payload[3], payload[2]);
            let oa = spec_combine(payload[5], payload[4]);
            Some(SensorReading::Temperature {
                tip_sixteenths: spec_sixteenths(tip) as u32,
                ambient_sixteenths: spec_sixteenths(spec_ambient_raw(tip, ra, oa)) as u32,
            })
        } else {
            None
        }
    } else if characteristic == BATTERY_CHARACTERISTIC {
        if payload.len() >= 2 {
            Some(SensorReading::Battery {
                percent: spec_battery_percent(spec_combine(payload[1], payload[0])) as u16,
            })
        } else {
            None
        }
    } else {
        None
    }
}

/// Decode one notification payload.
///
/// Total and pure: a malformed payload yields `None`, never an error, and
/// the result depends on the arguments alone.
pub fn decode(characteristic: u128, payload: &[u8]) -> (r: Option<SensorReading>)
    ensures
        r == spec_decode(characteristic, payload@),
{
    if characteristic == TEMPERATURE_CHARACTERISTIC {
        if payload.len() != 8 {
            return None;
        }
        let tip = to_u16(payload[1], payload[0]);
        let ra = to_u16(payload[3], payload[2]);
        let oa = to_u16(payload[5], payload[4]);
        let floor: u16 = if oa < 48 {
            oa
        } else {
            48
        };
        let diff: u32 = if ra >= floor {
            (ra - floor) as u32
        } else {
            0
        };
        let correction: u32 = diff * 16 * 589 / 1487;
        let ambient: u32 = tip as u32 + correction;
        Some(SensorReading::Temperature {
            tip_sixteenths: celsius_sixteenths(tip),
            ambient_sixteenths: ambient + 8,
        })
    } else if characteristic == BATTERY_CHARACTERISTIC {
        if payload.len() < 2 {
            return None;
        }
        let raw = to_u16(payload[1], payload[0]);
        let percent: u16 = if raw <= 10 {
            raw * 10
        } else {
            100
        };
        Some(SensorReading::Battery { percent })
    } else {
        None
    }
}

/// Whether a characteristic with properties byte `props` supports
/// notifications.
pub open spec fn spec_notifiable(props: u8) -> bool {
    props & NOTIFY_FLAG != 0
}

/// Whether a characteristic with properties byte `props` should be
/// subscribed: exactly the notifiable ones are.
pub fn notifiable(props: u8) -> (r: bool)
    ensures
        r == spec_notifiable(props),
{
    props & NOTIFY_FLAG != 0
}

} // verus!
