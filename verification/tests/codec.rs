//! Tests of the notification decoder and the small pure helpers.

use meater::codec::{
    celsius_sixteenths, decode, notifiable, to_u16, SensorReading, BATTERY_CHARACTERISTIC,
    NOTIFY_FLAG, SERVICE_ID, TEMPERATURE_CHARACTERISTIC,
};

#[test]
fn combine_bytes() {
    assert_eq!(to_u16(0, 0), 0);
    assert_eq!(to_u16(0x04, 0xb0), 1200);
    assert_eq!(to_u16(0xff, 0xff), 0xffff);
    assert_eq!(to_u16(1, 0), 256);
}

#[test]
fn sixteenths_of_raw_value() {
    assert_eq!(celsius_sixteenths(0), 8);
    assert_eq!(celsius_sixteenths(1200), 1208);
    assert_eq!(celsius_sixteenths(u16::MAX), 65543);
}

#[test]
fn decode_is_pure() {
    // Same bytes, same reading, independent of prior calls.
    let payload = [0x10u8, 0x02, 0x20, 0x02, 0x30, 0x00, 0xaa, 0xbb];
    let first = decode(TEMPERATURE_CHARACTERISTIC, &payload);
    let _ = decode(BATTERY_CHARACTERISTIC, &[5, 0]);
    let _ = decode(TEMPERATURE_CHARACTERISTIC, &[0; 8]);
    let second = decode(TEMPERATURE_CHARACTERISTIC, &payload);
    assert!(first.is_some());
    assert_eq!(first, second);
}

#[test]
fn decode_temperature_boundaries() {
    // Raw tip 0 is half a degree: 8 sixteenths.
    let r = decode(TEMPERATURE_CHARACTERISTIC, &[0, 0, 0, 0, 0, 0, 0, 0]);
    assert_eq!(
        r,
        Some(SensorReading::Temperature { tip_sixteenths: 8, ambient_sixteenths: 8 })
    );
    // Raw tip 1200 is 75.5 degrees: 1208 sixteenths.
    let r = decode(TEMPERATURE_CHARACTERISTIC, &[0xb0, 0x04, 0, 0, 0, 0, 0, 0]);
    assert_eq!(
        r,
        Some(SensorReading::Temperature { tip_sixteenths: 1208, ambient_sixteenths: 1208 })
    );
    let half = 8.0_f32 / 16.0;
    assert_eq!(half, 0.5);
    let warm = 1208.0_f32 / 16.0;
    assert_eq!(warm, 75.5);
}

#[test]
fn decode_ambient_correction() {
    // tip 0, ra 100, oa 0: correction is 100 * 16 * 589 / 1487 = 633.
    let r = decode(TEMPERATURE_CHARACTERISTIC, &[0, 0, 100, 0, 0, 0, 0, 0]);
    assert_eq!(
        r,
        Some(SensorReading::Temperature { tip_sixteenths: 8, ambient_sixteenths: 641 })
    );
}

#[test]
fn decode_ambient_clamps_negative_correction() {
    // ra 10 lies below min(48, oa) = 48: the correction clamps to zero.
    let r = decode(TEMPERATURE_CHARACTERISTIC, &[0x10, 0x02, 10, 0, 100, 0, 0, 0]);
    assert_eq!(
        r,
        Some(SensorReading::Temperature { tip_sixteenths: 0x0210 + 8, ambient_sixteenths: 0x0210 + 8 })
    );
}

#[test]
fn decode_ambient_cap_at_48() {
    // oa 100 caps the subtrahend at 48: ra 148 gives diff 100, correction 633.
    let r = decode(TEMPERATURE_CHARACTERISTIC, &[0, 0, 148, 0, 100, 0, 0, 0]);
    assert_eq!(
        r,
        Some(SensorReading::Temperature { tip_sixteenths: 8, ambient_sixteenths: 641 })
    );
}

#[test]
fn decode_rejects_wrong_length_temperature() {
    assert_eq!(decode(TEMPERATURE_CHARACTERISTIC, &[]), None);
    assert_eq!(decode(TEMPERATURE_CHARACTERISTIC, &[0; 7]), None);
    assert_eq!(decode(TEMPERATURE_CHARACTERISTIC, &[0; 9]), None);
    assert_eq!(decode(TEMPERATURE_CHARACTERISTIC, &[0; 2]), None);
}

#[test]
fn decode_battery_boundaries() {
    // Raw unit 0 is 0 percent, raw unit 10 is 100 percent.
    assert_eq!(
        decode(BATTERY_CHARACTERISTIC, &[0, 0]),
        Some(SensorReading::Battery { percent: 0 })
    );
    assert_eq!(
        decode(BATTERY_CHARACTERISTIC, &[10, 0]),
        Some(SensorReading::Battery { percent: 100 })
    );
    assert_eq!(
        decode(BATTERY_CHARACTERISTIC, &[5, 0]),
        Some(SensorReading::Battery { percent: 50 })
    );
}

#[test]
fn decode_battery_caps_at_100() {
    assert_eq!(
        decode(BATTERY_CHARACTERISTIC, &[11, 0]),
        Some(SensorReading::Battery { percent: 100 })
    );
    assert_eq!(
        decode(BATTERY_CHARACTERISTIC, &[0xff, 0xff]),
        Some(SensorReading::Battery { percent: 100 })
    );
}

#[test]
fn decode_battery_needs_two_bytes() {
    assert_eq!(decode(BATTERY_CHARACTERISTIC, &[]), None);
    assert_eq!(decode(BATTERY_CHARACTERISTIC, &[7]), None);
    // Extra bytes beyond the first two are ignored.
    assert_eq!(
        decode(BATTERY_CHARACTERISTIC, &[3, 0, 0xaa]),
        Some(SensorReading::Battery { percent: 30 })
    );
}

#[test]
fn decode_ignores_other_characteristics() {
    assert_eq!(decode(SERVICE_ID, &[0; 8]), None);
    assert_eq!(decode(0, &[0; 8]), None);
    assert_eq!(decode(u128::MAX, &[10, 0]), None);
}

#[test]
fn notify_bit() {
    assert!(notifiable(NOTIFY_FLAG));
    assert!(notifiable(0xff));
    assert!(notifiable(0x1a));
    assert!(!notifiable(0));
    assert!(!notifiable(0x0f));
    assert!(!notifiable(0xef));
}
