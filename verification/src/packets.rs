//! The packets that ask the headset to report.
//!
//! The headset answers each of them with a report of its own; the answer arrives on
//! the next read.

use crate::protocol::{battery_event_code, BatteryEvent};
use vstd::prelude::*;

verus! {

/// Length in bytes of every packet sent to the headset.
pub const TRIGGER_PACKET_LEN: usize = 62;

/// First byte of every packet sent to the headset.
pub const REPORT_ID: u8 = 6;

/// Asks for a battery notification.
pub const BATTERY_TRIGGER_PACKET: [u8; 62] = [
    6, 0, 2, 0, 154, 0, 0, 104, 74, 142, 10, 0, 0, 0, 187, 2, 0, 0, 0, 0, 0, 0, 0, 0, 0, 0, 0, 0,
    0, 0, 0, 0, 0, 0, 0, 0, 0, 0, 0, 0, 0, 0, 0, 0, 0, 0, 0, 0, 0, 0, 0, 0, 0, 0, 0, 0, 0, 0, 0, 0,
    0, 0,
];

/// Asks whether the charging cable is plugged in.
pub const CHARGE_STATUS_TRIGGER_PACKET: [u8; 62] = [
    6, 0, 2, 0, 154, 0, 0, 104, 74, 142, 10, 0, 0, 0, 187, 3, 0, 0, 0, 0, 0, 0, 0, 0, 0, 0, 0, 0,
    0, 0, 0, 0, 0, 0, 0, 0, 0, 0, 0, 0, 0, 0, 0, 0, 0, 0, 0, 0, 0, 0, 0, 0, 0, 0, 0, 0, 0, 0, 0, 0,
    0, 0,
];

/// Asks for a device-info report.
pub const DEVICE_STATUS_TRIGGER_PACKETS: [u8; 62] = [
    6, 0, 0, 0, 0xFF, 0, 0, 104, 74, 142, 0, 0, 0, 0, 0, 0, 0, 0, 0, 0, 0, 0, 0, 0, 0, 0, 0, 0, 0,
    0, 0, 0, 0, 0, 0, 0, 0, 0, 0, 0, 0, 0, 0, 0, 0, 0, 0, 0, 0, 0, 0, 0, 0, 0, 0, 0, 0, 0, 0, 0, 0,
    0,
];

/// Every trigger packet has the fixed length and opens with the report id.
pub proof fn lemma_trigger_packets_framing()
    ensures
        BATTERY_TRIGGER_PACKET@.len() == TRIGGER_PACKET_LEN,
        CHARGE_STATUS_TRIGGER_PACKET@.len() == TRIGGER_PACKET_LEN,
        DEVICE_STATUS_TRIGGER_PACKETS@.len() == TRIGGER_PACKET_LEN,
        BATTERY_TRIGGER_PACKET@[0] == REPORT_ID,
        CHARGE_STATUS_TRIGGER_PACKET@[0] == REPORT_ID,
        DEVICE_STATUS_TRIGGER_PACKETS@[0] == REPORT_ID,
{
}

/// No two trigger packets are the same.
pub proof fn lemma_trigger_packets_distinct()
    ensures
        BATTERY_TRIGGER_PACKET != CHARGE_STATUS_TRIGGER_PACKET,
        BATTERY_TRIGGER_PACKET != DEVICE_STATUS_TRIGGER_PACKETS,
        CHARGE_STATUS_TRIGGER_PACKET != DEVICE_STATUS_TRIGGER_PACKETS,
{
    assert(BATTERY_TRIGGER_PACKET@[15] != CHARGE_STATUS_TRIGGER_PACKET@[15]);
    assert(BATTERY_TRIGGER_PACKET@[4] != DEVICE_STATUS_TRIGGER_PACKETS@[4]);
    assert(CHARGE_STATUS_TRIGGER_PACKET@[4] != DEVICE_STATUS_TRIGGER_PACKETS@[4]);
}

/// The battery request names, in its bytes 14-15, the marker by which the headset's
/// battery notification is recognised.
pub proof fn lemma_battery_request_names_its_answer()
    ensures
        battery_event_code(BATTERY_TRIGGER_PACKET@.subrange(14, 16))
            == BatteryEvent::BatteryReport.spec_code(),
{
    assert(BATTERY_TRIGGER_PACKET@.subrange(14, 16)[0] == BATTERY_TRIGGER_PACKET@[14]);
    assert(BATTERY_TRIGGER_PACKET@.subrange(14, 16)[1] == BATTERY_TRIGGER_PACKET@[15]);
}

} // verus!
