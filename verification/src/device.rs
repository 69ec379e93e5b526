//! The device session: the status of one headset, fed by the reports read from it.
//!
//! The session owns no device handle. The caller reads from the device and hands the
//! buffer to [`CloudFlight::read`]; it asks the session for the packet to write when it
//! wants the headset to report.

use crate::decoder::{decode, is_report, report_event, report_update};
use crate::packets::{
    BATTERY_TRIGGER_PACKET, CHARGE_STATUS_TRIGGER_PACKET, DEVICE_STATUS_TRIGGER_PACKETS, REPORT_ID,
};
use crate::protocol::{Event, EventType};
use crate::state::{CloudFlightStatus, StateUpdate};
use vstd::prelude::*;

verus! {

/// USB vendor id of the headset's wireless dongle.
pub const VENDOR_ID: u16 = 0x0951;

/// USB product ids under which the dongle is known.
pub const PRODUCT_IDS: [u16; 1] = [0x16ea];

/// Size of the buffer to hand to a read. It is larger than any report, so a read that
/// fills it did not deliver a report.
pub const READ_BUFFER_LEN: usize = 300;

/// How long a read waits for a report, in milliseconds.
pub const READ_TIMEOUT_MS: i32 = 500;

/// Session state of one headset. Its view is the status that [`CloudFlight::check_status`]
/// reports.
#[derive(Debug)]
pub struct CloudFlight {
    powered: bool,
    muted: bool,
    surround: bool,
    charging: bool,
    battery: u8,
}

impl View for CloudFlight {
    type V = CloudFlightStatus;

    closed spec fn view(&self) -> CloudFlightStatus {
        CloudFlightStatus {
            powered: self.powered,
            muted: self.muted,
            surround: self.surround,
            charging: self.charging,
            battery: self.battery as usize,
        }
    }
}

impl CloudFlight {
    /// Starts a session. Until the headset reports otherwise it counts as switched
    /// off, unmuted, without surround sound, not charging, with an empty battery.
    pub fn new() -> (session: Self)
        ensures
            session@ == CloudFlightStatus::initial(),
    {
        CloudFlight { powered: false, muted: false, surround: false, charging: false, battery: 0 }
    }

    /// Writes `update` over the status.
    pub fn apply(&mut self, update: StateUpdate)
        ensures
            final(self)@ == update.spec_apply(old(self)@),
    {
        if let Some(powered) = update.powered {
            self.powered = powered;
        }
        if let Some(muted) = update.muted {
            self.muted = muted;
        }
        if let Some(surround) = update.surround {
            self.surround = surround;
        }
        if let Some(charging) = update.charging {
            self.charging = charging;
        }
        if let Some(level) = update.battery {
            self.battery = level;
        }
    }

    /// Takes in the outcome of one read from the device: `raw` is the buffer handed to
    /// the read and `bytes_read` the count it returned (zero for a timeout). Returns
    /// the event the read stands for and brings the status up to date. A read that
    /// delivered no report returns `Event::Ignored` and changes nothing.
    pub fn read(&mut self, raw: &[u8], bytes_read: usize) -> (event: Event)
        ensures
            event == report_event(raw@, bytes_read as nat),
            final(self)@ == report_update(raw@, bytes_read as nat).spec_apply(old(self)@),
            !is_report(raw@, bytes_read as nat) ==> event == Event::Ignored && final(self)@ == old(
                self,
            )@,
            EventType::spec_from_u8(raw@[0]) is None ==> event == Event::Ignored && final(self)@
                == old(self)@,
    {
        let (event, update) = decode(raw, bytes_read);
        self.apply(update);
        event
    }

    /// The current status. The battery level is the byte last reported, so it fits a
    /// byte.
    pub fn check_status(&self) -> (status: CloudFlightStatus)
        ensures
            status == self@,
            status.battery <= u8::MAX,
    {
        CloudFlightStatus {
            powered: self.powered,
            muted: self.muted,
            charging: self.charging,
            surround: self.surround,
            battery: self.battery as usize,
        }
    }

    /// The packet to write to the device to ask for a battery notification. The answer
    /// arrives on the next read.
    pub fn request_battery(&self) -> (packet: [u8; 62])
        ensures
            packet == BATTERY_TRIGGER_PACKET,
            packet@[0] == REPORT_ID,
    {
        BATTERY_TRIGGER_PACKET
    }

    /// The packet to write to the device to ask for a device-info report.
    pub fn request_device_info(&self) -> (packet: [u8; 62])
        ensures
            packet == DEVICE_STATUS_TRIGGER_PACKETS,
            packet@[0] == REPORT_ID,
    {
        DEVICE_STATUS_TRIGGER_PACKETS
    }

    /// The packet to write to the device to ask whether the charging cable is plugged
    /// in.
    pub fn request_charge_status(&self) -> (packet: [u8; 62])
        ensures
            packet == CHARGE_STATUS_TRIGGER_PACKET,
            packet@[0] == REPORT_ID,
    {
        CHARGE_STATUS_TRIGGER_PACKET
    }
}

} // verus!
