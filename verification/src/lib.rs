//! Protocol decoding and device state for the HyperX Cloud Flight wireless headset.
//!
//! The headset talks over USB HID in fixed-layout reports. This crate interprets those
//! reports, keeps the last known device status, and builds the packets that ask the
//! headset to report. It performs no I/O: the caller moves bytes to and from the device.

pub mod decoder;
pub mod device;
pub mod packets;
pub mod protocol;
pub mod state;
pub mod tray;

pub use decoder::decode;
pub use device::CloudFlight;
pub use protocol::{
    BatteryEvent, Event, EventType, PowerEvent, VolumeEvent, VolumeStateChangeEvent,
};
pub use state::{CloudFlightStatus, StateUpdate};
pub use tray::Tray;
