//! Wire codes of the report protocol and the events they stand for.

use vstd::prelude::*;

verus! {

/// Leading byte of a report. It selects the layout of the bytes that follow.
#[derive(Clone, Copy, Debug, PartialEq, Eq, Structural)]
pub enum EventType {
    VolumeLevelChange,
    PowerStateChange,
    VolumeStateChange,
    DeviceInfoChange,
}

/// A turn of the volume wheel.
#[derive(Clone, Copy, Debug, PartialEq, Eq, Structural)]
pub enum VolumeEvent {
    VolumeUp,
    VolumeDown,
}

/// A change of the microphone mute switch.
#[derive(Clone, Copy, Debug, PartialEq, Eq, Structural)]
pub enum VolumeStateChangeEvent {
    Muted,
    UnMuted,
}

/// A change of power or of the charging cable.
#[derive(Clone, Copy, Debug, PartialEq, Eq, Structural)]
pub enum PowerEvent {
    PowerOff,
    PowerOn,
    Charging,
    NotCharging,
}

/// A battery notification.
#[derive(Clone, Copy, Debug, PartialEq, Eq, Structural)]
pub enum BatteryEvent {
    BatteryReport,
}

/// What one report means to the caller.
#[derive(Clone, Copy, Debug, PartialEq, Eq, Structural)]
pub enum Event {
    PowerEvent(PowerEvent),
    /// The battery notification and the level byte that came with it.
    BatteryNotificationEvent(BatteryEvent, u8),
    VolumeEvent(VolumeEvent),
    MuteStateChangeEvent(VolumeStateChangeEvent),
    /// The report carried nothing the caller has to react to.
    Ignored,
}

impl EventType {
    /// The tag byte that announces this kind of report.
    pub open spec fn spec_code(self) -> u8 {
        match self {
            EventType::VolumeLevelChange => 0x02,
            EventType::PowerStateChange => 0x0b,
            EventType::VolumeStateChange => 0x0a,
            EventType::DeviceInfoChange => 0x07,
        }
    }

    /// The kind of report that `tag` announces, if it announces one.
    pub open spec fn spec_from_u8(tag: u8) -> Option<EventType> {
        if tag == 0x02 {
            Some(EventType::VolumeLevelChange)
        } else if tag == 0x0b {
            Some(EventType::PowerStateChange)
        } else if tag == 0x0a {
            Some(EventType::VolumeStateChange)
        } else if tag == 0x07 {
            Some(EventType::DeviceInfoChange)
        } else {
            None
        }
    }

    #[verifier::when_used_as_spec(spec_code)]
    pub fn code(self) -> (c: u8)
        ensures
            c == self.spec_code(),
    {
        match self {
            EventType::VolumeLevelChange => 0x02,
            EventType::PowerStateChange => 0x0b,
            EventType::VolumeStateChange => 0x0a,
            EventType::DeviceInfoChange => 0x07,
        }
    }

    /// Looks `tag` up among the known tags: the result is the one kind whose code is
    /// `tag`, and `None` exactly when no kind has that code.
    pub fn from_u8(tag: u8) -> (r: Option<EventType>)
        ensures
            r == Self::spec_from_u8(tag),
            r matches Some(t) ==> t.spec_code() == tag,
            r is None ==> forall|t: EventType| t.spec_code() != tag,
    {
        match tag {
            0x02 => Some(EventType::VolumeLevelChange),
            0x0b => Some(EventType::PowerStateChange),
            0x0a => Some(EventType::VolumeStateChange),
            0x07 => Some(EventType::DeviceInfoChange),
            _ => None,
        }
    }
}

impl VolumeEvent {
    /// The byte that stands for this turn of the wheel.
    pub open spec fn spec_code(self) -> u8 {
        match self {
            VolumeEvent::VolumeUp => 0x01,
            VolumeEvent::VolumeDown => 0x02,
        }
    }

    /// The turn of the wheel that `code` stands for, if it stands for one.
    pub open spec fn spec_from_u8(code: u8) -> Option<VolumeEvent> {
        if code == 0x01 {
            Some(VolumeEvent::VolumeUp)
        } else if code == 0x02 {
            Some(VolumeEvent::VolumeDown)
        } else {
            None
        }
    }

    #[verifier::when_used_as_spec(spec_code)]
    pub fn code(self) -> (c: u8)
        ensures
            c == self.spec_code(),
    {
        match self {
            VolumeEvent::VolumeUp => 0x01,
            VolumeEvent::VolumeDown => 0x02,
        }
    }

    /// Looks `code` up: the result is the one event whose code it is, and `None`
    /// exactly when there is no such event.
    pub fn from_u8(code: u8) -> (r: Option<VolumeEvent>)
        ensures
            r == Self::spec_from_u8(code),
            r matches Some(e) ==> e.spec_code() == code,
            r is None ==> forall|e: VolumeEvent| e.spec_code() != code,
    {
        match code {
            0x01 => Some(VolumeEvent::VolumeUp),
            0x02 => Some(VolumeEvent::VolumeDown),
            _ => None,
        }
    }
}

impl VolumeStateChangeEvent {
    /// The byte that stands for this position of the mute switch.
    pub open spec fn spec_code(self) -> u8 {
        match self {
            VolumeStateChangeEvent::Muted => 0x02,
            VolumeStateChangeEvent::UnMuted => 0x00,
        }
    }

    /// The position of the mute switch that `code` stands for, if it stands for one.
    pub open spec fn spec_from_u8(code: u8) -> Option<VolumeStateChangeEvent> {
        if code == 0x02 {
            Some(VolumeStateChangeEvent::Muted)
        } else if code == 0x00 {
            Some(VolumeStateChangeEvent::UnMuted)
        } else {
            None
        }
    }

    #[verifier::when_used_as_spec(spec_code)]
    pub fn code(self) -> (c: u8)
        ensures
            c == self.spec_code(),
    {
        match self {
            VolumeStateChangeEvent::Muted => 0x02,
            VolumeStateChangeEvent::UnMuted => 0x00,
        }
    }

    /// Looks `code` up: the result is the one event whose code it is, and `None`
    /// exactly when there is no such event.
    pub fn from_u8(code: u8) -> (r: Option<VolumeStateChangeEvent>)
        ensures
            r == Self::spec_from_u8(code),
            r matches Some(e) ==> e.spec_code() == code,
            r is None ==> forall|e: VolumeStateChangeEvent| e.spec_code() != code,
    {
        match code {
            0x02 => Some(VolumeStateChangeEvent::Muted),
            0x00 => Some(VolumeStateChangeEvent::UnMuted),
            _ => None,
        }
    }
}

impl PowerEvent {
    /// The 16-bit code that stands for this event.
    pub open spec fn spec_code(self) -> u16 {
        match self {
            PowerEvent::PowerOff => 0x0301,
            PowerEvent::PowerOn => 0x0101,
            PowerEvent::Charging => 0x0103,
            PowerEvent::NotCharging => 0x0003,
        }
    }

    /// The event that `code` stands for, if it stands for one.
    pub open spec fn spec_from_u16(code: u16) -> Option<PowerEvent> {
        if code == 0x0301 {
            Some(PowerEvent::PowerOff)
        } else if code == 0x0101 {
            Some(PowerEvent::PowerOn)
        } else if code == 0x0103 {
            Some(PowerEvent::Charging)
        } else if code == 0x0003 {
            Some(PowerEvent::NotCharging)
        } else {
            None
        }
    }

    #[verifier::when_used_as_spec(spec_code)]
    pub fn code(self) -> (c: u16)
        ensures
            c == self.spec_code(),
    {
        match self {
            PowerEvent::PowerOff => 0x0301,
            PowerEvent::PowerOn => 0x0101,
            PowerEvent::Charging => 0x0103,
            PowerEvent::NotCharging => 0x0003,
        }
    }

    /// Looks `code` up: the result is the one event whose code it is, and `None`
    /// exactly when there is no such event.
    pub fn from_u16(code: u16) -> (r: Option<PowerEvent>)
        ensures
            r == Self::spec_from_u16(code),
            r matches Some(e) ==> e.spec_code() == code,
            r is None ==> forall|e: PowerEvent| e.spec_code() != code,
    {
        match code {
            0x0301 => Some(PowerEvent::PowerOff),
            0x0101 => Some(PowerEvent::PowerOn),
            0x0103 => Some(PowerEvent::Charging),
            0x0003 => Some(PowerEvent::NotCharging),
            _ => None,
        }
    }
}

impl BatteryEvent {
    /// The 16-bit code that marks a battery notification.
    pub open spec fn spec_code(self) -> u16 {
        match self {
            BatteryEvent::BatteryReport => 0xbb02,
        }
    }

    /// The notification that `code` marks, if it marks one.
    pub open spec fn spec_from_u16(code: u16) -> Option<BatteryEvent> {
        if code == 0xbb02 {
            Some(BatteryEvent::BatteryReport)
        } else {
            None
        }
    }

    #[verifier::when_used_as_spec(spec_code)]
    pub fn code(self) -> (c: u16)
        ensures
            c == self.spec_code(),
    {
        match self {
            BatteryEvent::BatteryReport => 0xbb02,
        }
    }

    /// Looks `code` up: the result is the one notification whose code it is, and
    /// `None` exactly when there is no such notification.
    pub fn from_u16(code: u16) -> (r: Option<BatteryEvent>)
        ensures
            r == Self::spec_from_u16(code),
            r matches Some(e) ==> e.spec_code() == code,
            r is None ==> forall|e: BatteryEvent| e.spec_code() != code,
    {
        match code {
            0xbb02 => Some(BatteryEvent::BatteryReport),
            _ => None,
        }
    }
}

/// The 16-bit word with high byte `hi` and low byte `lo`.
pub open spec fn word(hi: u8, lo: u8) -> u16 {
    (hi as int * 256 + lo as int) as u16
}

/// The power code in the first two bytes of `packet`: low byte first.
pub open spec fn power_event_code(packet: Seq<u8>) -> u16
    recommends
        packet.len() >= 2,
{
    word(packet[1], packet[0])
}

/// The battery code in the first two bytes of `packet`: high byte first.
pub open spec fn battery_event_code(packet: Seq<u8>) -> u16
    recommends
        packet.len() >= 2,
{
    word(packet[0], packet[1])
}

/// Reads the first two bytes of `packet` as a power code: low byte first.
pub fn get_potential_power_event(packet: &[u8]) -> (code: u16)
    requires
        packet@.len() >= 2,
    ensures
        code == power_event_code(packet@),
{
    let lo: u16 = packet[0] as u16;
    let hi: u16 = packet[1] as u16;
    assert((hi << 8) | lo == hi * 256 + lo) by (bit_vector)
        requires
            hi < 256,
            lo < 256,
    ;
    (hi << 8) | lo
}

/// Reads the first two bytes of `packet` as a battery code: high byte first.
pub fn get_potential_battery_event(packet: &[u8]) -> (code: u16)
    requires
        packet@.len() >= 2,
    ensures
        code == battery_event_code(packet@),
{
    let hi: u16 = packet[0] as u16;
    let lo: u16 = packet[1] as u16;
    assert((hi << 8) | lo == hi * 256 + lo) by (bit_vector)
        requires
            hi < 256,
            lo < 256,
    ;
    (hi << 8) | lo
}

/// Each code table is one-to-one: looking up the code of a variant gives that variant
/// back.
pub proof fn lemma_codes_round_trip()
    ensures
        forall|t: EventType| #[trigger] EventType::spec_from_u8(t.spec_code()) == Some(t),
        forall|e: VolumeEvent| #[trigger] VolumeEvent::spec_from_u8(e.spec_code()) == Some(e),
        forall|e: VolumeStateChangeEvent| #[trigger]
            VolumeStateChangeEvent::spec_from_u8(e.spec_code()) == Some(e),
        forall|e: PowerEvent| #[trigger] PowerEvent::spec_from_u16(e.spec_code()) == Some(e),
        forall|e: BatteryEvent| #[trigger] BatteryEvent::spec_from_u16(e.spec_code()) == Some(e),
{
}

/// A word determines its two bytes, and its value is `hi * 256 + lo`.
pub proof fn lemma_word_bytes(hi: u8, lo: u8)
    ensures
        word(hi, lo) == hi * 256 + lo,
        word(hi, lo) / 256 == hi,
        word(hi, lo) % 256 == lo,
{
}

/// The two byte orders read the same pair of bytes as mirror images: what one reads
/// from `[a, b]` the other reads from `[b, a]`.
pub proof fn lemma_byte_orders_mirror(a: u8, b: u8)
    ensures
        power_event_code(seq![a, b]) == battery_event_code(seq![b, a]),
{
}

} // verus!
