//! Interpretation of one raw report.
//!
//! A report is a fixed-layout buffer. Byte 0 is the tag; the fields that matter sit at
//! fixed offsets behind it:
//!
//! | tag                 | field                         | meaning                        |
//! |---------------------|-------------------------------|--------------------------------|
//! | `PowerStateChange`  | bytes 2-3, high byte first    | battery notification marker    |
//! |                     | byte 7                        | battery level                  |
//! |                     | bytes 3-4, low byte first     | power or charging code         |
//! | `DeviceInfoChange`  | byte 14, bit `0x10`           | microphone muted               |
//! |                     | byte 12, bit `0x02`           | surround sound enabled         |
//! | `VolumeLevelChange` | byte 1                        | direction of the volume wheel  |
//! | `VolumeStateChange` | byte 4                        | position of the mute switch    |

use crate::protocol::{
    get_potential_battery_event, get_potential_power_event, word, BatteryEvent, Event, EventType,
    PowerEvent, VolumeEvent, VolumeStateChangeEvent,
};
use crate::state::{CloudFlightStatus, StateUpdate};
use vstd::prelude::*;

verus! {

/// Length of the shortest buffer in which every field that the decoder consults exists.
pub const MIN_REPORT_LEN: usize = 15;

/// Bit of byte 14 of a device-info report that is set while the microphone is muted.
pub const MUTED_FLAG: u8 = 0x10;

/// Bit of byte 12 of a device-info report that is set while surround sound is enabled.
pub const SURROUND_FLAG: u8 = 0x02;

/// Whether a read that put `bytes_read` bytes into the buffer `raw` delivered a report:
/// the buffer is long enough to hold every field, something was read, and the read did
/// not fill the buffer to its end.
pub open spec fn is_report(raw: Seq<u8>, bytes_read: nat) -> bool {
    &&& raw.len() >= MIN_REPORT_LEN
    &&& 0 < bytes_read < raw.len()
}

/// The battery marker field of a power-state report: bytes 2-3, high byte first.
pub open spec fn battery_marker(raw: Seq<u8>) -> u16
    recommends
        raw.len() >= MIN_REPORT_LEN,
{
    word(raw[2], raw[3])
}

/// The power code field of a power-state report: bytes 3-4, low byte first.
pub open spec fn power_code(raw: Seq<u8>) -> u16
    recommends
        raw.len() >= MIN_REPORT_LEN,
{
    word(raw[4], raw[3])
}

/// The event in a power-state report. A battery notification takes precedence over a
/// power code.
pub open spec fn power_state_event(raw: Seq<u8>) -> Event
    recommends
        raw.len() >= MIN_REPORT_LEN,
{
    match BatteryEvent::spec_from_u16(battery_marker(raw)) {
        Some(notification) => Event::BatteryNotificationEvent(notification, raw[7]),
        None => match PowerEvent::spec_from_u16(power_code(raw)) {
            Some(power) => Event::PowerEvent(power),
            None => Event::Ignored,
        },
    }
}

/// The event in a volume-level report.
pub open spec fn volume_level_event(raw: Seq<u8>) -> Event
    recommends
        raw.len() >= MIN_REPORT_LEN,
{
    match VolumeEvent::spec_from_u8(raw[1]) {
        Some(volume) => Event::VolumeEvent(volume),
        None => Event::Ignored,
    }
}

/// The event in a volume-state report.
pub open spec fn volume_state_event(raw: Seq<u8>) -> Event
    recommends
        raw.len() >= MIN_REPORT_LEN,
{
    match VolumeStateChangeEvent::spec_from_u8(raw[4]) {
        Some(mute) => Event::MuteStateChangeEvent(mute),
        None => Event::Ignored,
    }
}

/// The writes of a device-info report: both flags, whatever they were before.
pub open spec fn device_info_update(raw: Seq<u8>) -> StateUpdate
    recommends
        raw.len() >= MIN_REPORT_LEN,
{
    StateUpdate {
        muted: Some(raw[14] & MUTED_FLAG != 0),
        surround: Some(raw[12] & SURROUND_FLAG != 0),
        ..StateUpdate::spec_none()
    }
}

/// The kind of report in `raw`, if the read delivered a report of a known kind.
pub open spec fn report_type(raw: Seq<u8>, bytes_read: nat) -> Option<EventType> {
    if is_report(raw, bytes_read) {
        EventType::spec_from_u8(raw[0])
    } else {
        None
    }
}

/// The event that a read of `bytes_read` bytes into `raw` stands for.
pub open spec fn report_event(raw: Seq<u8>, bytes_read: nat) -> Event {
    match report_type(raw, bytes_read) {
        Some(EventType::PowerStateChange) => power_state_event(raw),
        Some(EventType::VolumeLevelChange) => volume_level_event(raw),
        Some(EventType::VolumeStateChange) => volume_state_event(raw),
        Some(EventType::DeviceInfoChange) => Event::Ignored,
        None => Event::Ignored,
    }
}

/// The writes to the status that a read of `bytes_read` bytes into `raw` implies. A
/// device-info report writes its two flags; any other report writes what its event
/// says.
pub open spec fn report_update(raw: Seq<u8>, bytes_read: nat) -> StateUpdate {
    match report_type(raw, bytes_read) {
        Some(EventType::DeviceInfoChange) => device_info_update(raw),
        _ => StateUpdate::of_event(report_event(raw, bytes_read)),
    }
}

/// Decodes the outcome of one read: `raw` is the buffer handed to the read and
/// `bytes_read` the count it returned. Returns the event for the caller and the writes
/// to apply to the status. Nothing is rejected with an error: a read that delivered no
/// report, an unknown tag and an unknown code all give `Event::Ignored` and no write.
pub fn decode(raw: &[u8], bytes_read: usize) -> (decoded: (Event, StateUpdate))
    ensures
        decoded.0 == report_event(raw@, bytes_read as nat),
        decoded.1 == report_update(raw@, bytes_read as nat),
        !is_report(raw@, bytes_read as nat) ==> decoded == (
            Event::Ignored,
            StateUpdate::spec_none(),
        ),
        EventType::spec_from_u8(raw@[0]) is None ==> decoded == (
            Event::Ignored,
            StateUpdate::spec_none(),
        ),
{
    if raw.len() < MIN_REPORT_LEN || bytes_read == 0 || bytes_read >= raw.len() {
        return (Event::Ignored, StateUpdate::none());
    }
    let event_type = match EventType::from_u8(raw[0]) {
        Some(event_type) => event_type,
        None => {
            return (Event::Ignored, StateUpdate::none());
        },
    };
    match event_type {
        EventType::PowerStateChange => {
            let marker: u16 = get_potential_battery_event(&raw[2..4]);
            assert(marker == battery_marker(raw@)) by {
                assert(raw@.subrange(2, 4)[0] == raw@[2]);
                assert(raw@.subrange(2, 4)[1] == raw@[3]);
            }
            if let Some(notification) = BatteryEvent::from_u16(marker) {
                let level: u8 = raw[7];
                return (
                    Event::BatteryNotificationEvent(notification, level),
                    StateUpdate { battery: Some(level), ..StateUpdate::none() },
                );
            }
            let code: u16 = get_potential_power_event(&raw[3..5]);
            assert(code == power_code(raw@)) by {
                assert(raw@.subrange(3, 5)[0] == raw@[3]);
                assert(raw@.subrange(3, 5)[1] == raw@[4]);
            }
            match PowerEvent::from_u16(code) {
                Some(PowerEvent::PowerOn) => (
                    Event::PowerEvent(PowerEvent::PowerOn),
                    StateUpdate { powered: Some(true), ..StateUpdate::none() },
                ),
                Some(PowerEvent::PowerOff) => (
                    Event::PowerEvent(PowerEvent::PowerOff),
                    StateUpdate { powered: Some(false), ..StateUpdate::none() },
                ),
                Some(PowerEvent::Charging) => (
                    Event::PowerEvent(PowerEvent::Charging),
                    StateUpdate { charging: Some(true), ..StateUpdate::none() },
                ),
                Some(PowerEvent::NotCharging) => (
                    Event::PowerEvent(PowerEvent::NotCharging),
                    StateUpdate { charging: Some(false), ..StateUpdate::none() },
                ),
                None => (Event::Ignored, StateUpdate::none()),
            }
        },
        EventType::DeviceInfoChange => {
            let mute_bits: u8 = raw[14] & MUTED_FLAG;
            let surround_bits: u8 = raw[12] & SURROUND_FLAG;
            (
                Event::Ignored,
                StateUpdate {
                    muted: Some(mute_bits != 0),
                    surround: Some(surround_bits != 0),
                    ..StateUpdate::none()
                },
            )
        },
        EventType::VolumeLevelChange => {
            match VolumeEvent::from_u8(raw[1]) {
                Some(volume) => (Event::VolumeEvent(volume), StateUpdate::none()),
                None => (Event::Ignored, StateUpdate::none()),
            }
        },
        EventType::VolumeStateChange => {
            match VolumeStateChangeEvent::from_u8(raw[4]) {
                Some(VolumeStateChangeEvent::Muted) => (
                    Event::MuteStateChangeEvent(VolumeStateChangeEvent::Muted),
                    StateUpdate { muted: Some(true), ..StateUpdate::none() },
                ),
                Some(VolumeStateChangeEvent::UnMuted) => (
                    Event::MuteStateChangeEvent(VolumeStateChangeEvent::UnMuted),
                    StateUpdate { muted: Some(false), ..StateUpdate::none() },
                ),
                None => (Event::Ignored, StateUpdate::none()),
            }
        },
    }
}

/// A read that delivered no report is ignored and leaves the status as it was: a
/// buffer below the minimum length, a read of nothing, or a read that filled the
/// buffer to its end.
pub proof fn lemma_no_report_is_ignored(raw: Seq<u8>, bytes_read: nat, status: CloudFlightStatus)
    requires
        raw.len() < MIN_REPORT_LEN || bytes_read == 0 || bytes_read >= raw.len(),
    ensures
        report_event(raw, bytes_read) == Event::Ignored,
        report_update(raw, bytes_read) == StateUpdate::spec_none(),
        report_update(raw, bytes_read).spec_apply(status) == status,
{
}

/// A tag byte that no kind of report has is ignored and leaves the status as it was,
/// whatever the rest of the buffer holds.
pub proof fn lemma_unknown_tag_is_ignored(raw: Seq<u8>, bytes_read: nat, status: CloudFlightStatus)
    requires
        forall|t: EventType| t.spec_code() != raw[0],
    ensures
        report_event(raw, bytes_read) == Event::Ignored,
        report_update(raw, bytes_read) == StateUpdate::spec_none(),
        report_update(raw, bytes_read).spec_apply(status) == status,
{
    assert(EventType::VolumeLevelChange.spec_code() != raw[0]);
    assert(EventType::PowerStateChange.spec_code() != raw[0]);
    assert(EventType::VolumeStateChange.spec_code() != raw[0]);
    assert(EventType::DeviceInfoChange.spec_code() != raw[0]);
}

/// A power-state report whose bytes 3-4 hold the code of `power` yields that event.
/// Afterwards the status shows the power or the charging state that the event names,
/// and no other field has changed.
pub proof fn lemma_power_report(
    raw: Seq<u8>,
    bytes_read: nat,
    status: CloudFlightStatus,
    power: PowerEvent,
)
    requires
        is_report(raw, bytes_read),
        raw[0] == EventType::PowerStateChange.spec_code(),
        power_code(raw) == power.spec_code(),
    ensures
        report_event(raw, bytes_read) == Event::PowerEvent(power),
        power is PowerOn ==> report_update(raw, bytes_read).spec_apply(status) == (CloudFlightStatus {
            powered: true,
            ..status
        }),
        power is PowerOff ==> report_update(raw, bytes_read).spec_apply(status)
            == (CloudFlightStatus { powered: false, ..status }),
        power is Charging ==> report_update(raw, bytes_read).spec_apply(status)
            == (CloudFlightStatus { charging: true, ..status }),
        power is NotCharging ==> report_update(raw, bytes_read).spec_apply(status)
            == (CloudFlightStatus { charging: false, ..status }),
{
}

/// A power-state report whose bytes 2-3 hold the battery marker yields a battery
/// notification with the level in byte 7. Afterwards the status shows that level, and
/// no other field has changed.
pub proof fn lemma_battery_report(raw: Seq<u8>, bytes_read: nat, status: CloudFlightStatus)
    requires
        is_report(raw, bytes_read),
        raw[0] == EventType::PowerStateChange.spec_code(),
        battery_marker(raw) == BatteryEvent::BatteryReport.spec_code(),
    ensures
        report_event(raw, bytes_read) == Event::BatteryNotificationEvent(
            BatteryEvent::BatteryReport,
            raw[7],
        ),
        report_update(raw, bytes_read).spec_apply(status) == (CloudFlightStatus {
            battery: raw[7] as usize,
            ..status
        }),
{
}

/// A device-info report yields no event for the caller. Afterwards the status shows
/// the two flags of the report, and no other field has changed.
pub proof fn lemma_device_info_report(raw: Seq<u8>, bytes_read: nat, status: CloudFlightStatus)
    requires
        is_report(raw, bytes_read),
        raw[0] == EventType::DeviceInfoChange.spec_code(),
    ensures
        report_event(raw, bytes_read) == Event::Ignored,
        report_update(raw, bytes_read).spec_apply(status) == (CloudFlightStatus {
            muted: raw[14] & MUTED_FLAG != 0,
            surround: raw[12] & SURROUND_FLAG != 0,
            ..status
        }),
{
}

/// Each flag of a device-info report is one binary digit of its byte: the muted flag
/// the digit worth 16, the surround flag the digit worth 2.
pub proof fn lemma_flags_are_single_bits(byte: u8)
    ensures
        (byte & MUTED_FLAG != 0) <==> (byte / 16) % 2 == 1,
        (byte & SURROUND_FLAG != 0) <==> (byte / 2) % 2 == 1,
{
    assert((byte & 0x10 != 0) <==> (byte / 16) % 2 == 1) by (bit_vector);
    assert((byte & 0x02 != 0) <==> (byte / 2) % 2 == 1) by (bit_vector);
}

/// A volume-state report whose byte 4 holds the code of `mute` yields that event.
/// Afterwards the status shows the position of the switch, and no other field has
/// changed.
pub proof fn lemma_mute_report(
    raw: Seq<u8>,
    bytes_read: nat,
    status: CloudFlightStatus,
    mute: VolumeStateChangeEvent,
)
    requires
        is_report(raw, bytes_read),
        raw[0] == EventType::VolumeStateChange.spec_code(),
        raw[4] == mute.spec_code(),
    ensures
        report_event(raw, bytes_read) == Event::MuteStateChangeEvent(mute),
        report_update(raw, bytes_read).spec_apply(status) == (CloudFlightStatus {
            muted: mute is Muted,
            ..status
        }),
{
}

/// A volume-level report whose byte 1 holds the code of `volume` yields that event and
/// leaves the status as it was.
pub proof fn lemma_volume_report(
    raw: Seq<u8>,
    bytes_read: nat,
    status: CloudFlightStatus,
    volume: VolumeEvent,
)
    requires
        is_report(raw, bytes_read),
        raw[0] == EventType::VolumeLevelChange.spec_code(),
        raw[1] == volume.spec_code(),
    ensures
        report_event(raw, bytes_read) == Event::VolumeEvent(volume),
        report_update(raw, bytes_read).spec_apply(status) == status,
{
}

/// The count of bytes read decides only whether there is a report. Two reads into the
/// same buffer that both delivered a report mean the same, however many bytes each
/// says it read.
pub proof fn lemma_count_only_frames(raw: Seq<u8>, count_a: nat, count_b: nat)
    requires
        is_report(raw, count_a),
        is_report(raw, count_b),
    ensures
        report_event(raw, count_a) == report_event(raw, count_b),
        report_update(raw, count_a) == report_update(raw, count_b),
{
}

/// The meaning of a report lies in its first `MIN_REPORT_LEN` bytes: two reports that
/// agree there mean the same, whatever follows.
pub proof fn lemma_meaning_lies_in_prefix(
    raw_a: Seq<u8>,
    count_a: nat,
    raw_b: Seq<u8>,
    count_b: nat,
)
    requires
        is_report(raw_a, count_a),
        is_report(raw_b, count_b),
        raw_a.subrange(0, MIN_REPORT_LEN as int) == raw_b.subrange(0, MIN_REPORT_LEN as int),
    ensures
        report_event(raw_a, count_a) == report_event(raw_b, count_b),
        report_update(raw_a, count_a) == report_update(raw_b, count_b),
{
    let prefix_a = raw_a.subrange(0, MIN_REPORT_LEN as int);
    let prefix_b = raw_b.subrange(0, MIN_REPORT_LEN as int);
    assert forall|i: int| 0 <= i < MIN_REPORT_LEN implies raw_a[i] == raw_b[i] by {
        assert(prefix_a[i] == raw_a[i]);
        assert(prefix_b[i] == raw_b[i]);
    }
}

/// A report that yields `Event::Ignored` writes nothing unless it is a device-info
/// report.
pub proof fn lemma_ignored_writes_nothing(raw: Seq<u8>, bytes_read: nat)
    requires
        report_event(raw, bytes_read) == Event::Ignored,
        report_type(raw, bytes_read) != Some(EventType::DeviceInfoChange),
    ensures
        report_update(raw, bytes_read) == StateUpdate::spec_none(),
{
}

/// Decoding keeps no count: the writes of a read, made a second time over the status
/// they have produced, leave that status as it is. The same read fed twice therefore
/// ends in the status that feeding it once ends in.
pub proof fn lemma_repeated_report_is_idempotent(
    raw: Seq<u8>,
    bytes_read: nat,
    status: CloudFlightStatus,
)
    ensures
        report_update(raw, bytes_read).spec_apply(
            report_update(raw, bytes_read).spec_apply(status),
        ) == report_update(raw, bytes_read).spec_apply(status),
{
}

} // verus!
