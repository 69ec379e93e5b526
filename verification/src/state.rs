//! The status record of the headset and the writes that a report makes to it.

use crate::protocol::{Event, PowerEvent, VolumeStateChangeEvent};
use vstd::prelude::*;

verus! {

/// Last known status of the headset.
#[derive(Clone, Copy, Debug, PartialEq, Eq, Structural)]
pub struct CloudFlightStatus {
    pub powered: bool,
    pub muted: bool,
    pub surround: bool,
    pub charging: bool,
    /// The level byte of the latest battery notification.
    pub battery: usize,
}

/// The fields of the status that one report writes. A field that is `None` is left as
/// it was.
#[derive(Clone, Copy, Debug, PartialEq, Eq, Structural)]
pub struct StateUpdate {
    pub powered: Option<bool>,
    pub muted: Option<bool>,
    pub surround: Option<bool>,
    pub charging: Option<bool>,
    pub battery: Option<u8>,
}

impl CloudFlightStatus {
    /// The status before anything has been heard from the headset.
    pub open spec fn initial() -> CloudFlightStatus {
        CloudFlightStatus {
            powered: false,
            muted: false,
            surround: false,
            charging: false,
            battery: 0,
        }
    }
}

impl StateUpdate {
    /// The update that writes nothing.
    pub open spec fn spec_none() -> StateUpdate {
        StateUpdate { powered: None, muted: None, surround: None, charging: None, battery: None }
    }

    /// Whether this update writes no field.
    pub open spec fn spec_is_empty(self) -> bool {
        self == Self::spec_none()
    }

    /// The writes that follow from `event` alone.
    pub open spec fn of_event(event: Event) -> StateUpdate {
        match event {
            Event::PowerEvent(PowerEvent::PowerOn) => StateUpdate {
                powered: Some(true),
                ..Self::spec_none()
            },
            Event::PowerEvent(PowerEvent::PowerOff) => StateUpdate {
                powered: Some(false),
                ..Self::spec_none()
            },
            Event::PowerEvent(PowerEvent::Charging) => StateUpdate {
                charging: Some(true),
                ..Self::spec_none()
            },
            Event::PowerEvent(PowerEvent::NotCharging) => StateUpdate {
                charging: Some(false),
                ..Self::spec_none()
            },
            Event::BatteryNotificationEvent(_, level) => StateUpdate {
                battery: Some(level),
                ..Self::spec_none()
            },
            Event::MuteStateChangeEvent(VolumeStateChangeEvent::Muted) => StateUpdate {
                muted: Some(true),
                ..Self::spec_none()
            },
            Event::MuteStateChangeEvent(VolumeStateChangeEvent::UnMuted) => StateUpdate {
                muted: Some(false),
                ..Self::spec_none()
            },
            Event::VolumeEvent(_) => Self::spec_none(),
            Event::Ignored => Self::spec_none(),
        }
    }

    /// The status that results when this update is written over `status`.
    pub open spec fn spec_apply(self, status: CloudFlightStatus) -> CloudFlightStatus {
        CloudFlightStatus {
            powered: match self.powered {
                Some(b) => b,
                None => status.powered,
            },
            muted: match self.muted {
                Some(b) => b,
                None => status.muted,
            },
            surround: match self.surround {
                Some(b) => b,
                None => status.surround,
            },
            charging: match self.charging {
                Some(b) => b,
                None => status.charging,
            },
            battery: match self.battery {
                Some(level) => level as usize,
                None => status.battery,
            },
        }
    }

    #[verifier::when_used_as_spec(spec_none)]
    pub fn none() -> (update: StateUpdate)
        ensures
            update == Self::spec_none(),
    {
        StateUpdate { powered: None, muted: None, surround: None, charging: None, battery: None }
    }

    #[verifier::when_used_as_spec(spec_is_empty)]
    pub fn is_empty(self) -> (empty: bool)
        ensures
            empty == self.spec_is_empty(),
    {
        self.powered.is_none() && self.muted.is_none() && self.surround.is_none()
            && self.charging.is_none() && self.battery.is_none()
    }

    /// Writes this update over `status`.
    #[verifier::when_used_as_spec(spec_apply)]
    pub fn apply(self, status: CloudFlightStatus) -> (next: CloudFlightStatus)
        ensures
            next == self.spec_apply(status),
    {
        CloudFlightStatus {
            powered: match self.powered {
                Some(b) => b,
                None => status.powered,
            },
            muted: match self.muted {
                Some(b) => b,
                None => status.muted,
            },
            surround: match self.surround {
                Some(b) => b,
                None => status.surround,
            },
            charging: match self.charging {
                Some(b) => b,
                None => status.charging,
            },
            battery: match self.battery {
                Some(level) => level as usize,
                None => status.battery,
            },
        }
    }
}

/// An update that writes nothing leaves every status as it is.
pub proof fn lemma_empty_update_changes_nothing(status: CloudFlightStatus)
    ensures
        StateUpdate::spec_none().spec_apply(status) == status,
{
}

/// Writing the same update a second time changes nothing more.
pub proof fn lemma_apply_idempotent(update: StateUpdate, status: CloudFlightStatus)
    ensures
        update.spec_apply(update.spec_apply(status)) == update.spec_apply(status),
{
}

/// A field that an update writes holds the written value afterwards, whatever the
/// status was; a field that it does not write keeps its value.
pub proof fn lemma_apply_fieldwise(update: StateUpdate, status: CloudFlightStatus)
    ensures
        update.powered matches Some(b) ==> update.spec_apply(status).powered == b,
        update.muted matches Some(b) ==> update.spec_apply(status).muted == b,
        update.surround matches Some(b) ==> update.spec_apply(status).surround == b,
        update.charging matches Some(b) ==> update.spec_apply(status).charging == b,
        update.battery matches Some(level) ==> update.spec_apply(status).battery == level,
        update.powered is None ==> update.spec_apply(status).powered == status.powered,
        update.muted is None ==> update.spec_apply(status).muted == status.muted,
        update.surround is None ==> update.spec_apply(status).surround == status.surround,
        update.charging is None ==> update.spec_apply(status).charging == status.charging,
        update.battery is None ==> update.spec_apply(status).battery == status.battery,
{
}

} // verus!
