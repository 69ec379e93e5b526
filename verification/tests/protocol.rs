use cloud_flight::protocol::{get_potential_battery_event, get_potential_power_event};
use cloud_flight::{BatteryEvent, EventType, PowerEvent, VolumeEvent, VolumeStateChangeEvent};

#[test]
fn power_code_is_low_byte_first() {
    assert_eq!(get_potential_power_event(&[0x01, 0x03]), 0x0301);
    assert_eq!(get_potential_power_event(&[0x03, 0x01]), 0x0103);
    assert_eq!(get_potential_power_event(&[0xff, 0xff]), 0xffff);
    assert_eq!(get_potential_power_event(&[0x00, 0x00]), 0x0000);
    assert_eq!(get_potential_power_event(&[0x34, 0x12, 0x99]), 0x1234);
}

#[test]
fn battery_code_is_high_byte_first() {
    assert_eq!(get_potential_battery_event(&[0xbb, 0x02]), 0xbb02);
    assert_eq!(get_potential_battery_event(&[0x02, 0xbb]), 0x02bb);
    assert_eq!(get_potential_battery_event(&[0xff, 0xff]), 0xffff);
    assert_eq!(get_potential_battery_event(&[0x12, 0x34, 0x99]), 0x1234);
}

#[test]
fn event_type_codes() {
    assert_eq!(EventType::VolumeLevelChange.code(), 0x02);
    assert_eq!(EventType::PowerStateChange.code(), 0x0b);
    assert_eq!(EventType::VolumeStateChange.code(), 0x0a);
    assert_eq!(EventType::DeviceInfoChange.code(), 0x07);
}

#[test]
fn event_type_lookup_inverts_code() {
    let mut known = 0;
    for tag in 0u8..=255 {
        match EventType::from_u8(tag) {
            Some(kind) => {
                assert_eq!(kind.code(), tag);
                known += 1;
            }
            None => {}
        }
    }
    assert_eq!(known, 4);
    assert_eq!(EventType::from_u8(0x0b), Some(EventType::PowerStateChange));
    assert_eq!(EventType::from_u8(0xff), None);
}

#[test]
fn volume_event_lookup_inverts_code() {
    assert_eq!(VolumeEvent::VolumeUp.code(), 0x01);
    assert_eq!(VolumeEvent::VolumeDown.code(), 0x02);
    assert_eq!(VolumeEvent::from_u8(0x01), Some(VolumeEvent::VolumeUp));
    assert_eq!(VolumeEvent::from_u8(0x02), Some(VolumeEvent::VolumeDown));
    assert_eq!(VolumeEvent::from_u8(0x00), None);
    assert_eq!(VolumeEvent::from_u8(0x03), None);
}

#[test]
fn mute_event_lookup_inverts_code() {
    assert_eq!(VolumeStateChangeEvent::Muted.code(), 0x02);
    assert_eq!(VolumeStateChangeEvent::UnMuted.code(), 0x00);
    assert_eq!(VolumeStateChangeEvent::from_u8(0x02), Some(VolumeStateChangeEvent::Muted));
    assert_eq!(VolumeStateChangeEvent::from_u8(0x00), Some(VolumeStateChangeEvent::UnMuted));
    assert_eq!(VolumeStateChangeEvent::from_u8(0x01), None);
    assert_eq!(VolumeStateChangeEvent::from_u8(0x13), None);
}

#[test]
fn power_event_lookup_inverts_code() {
    let mut known = 0;
    for code in 0u16..=0xffff {
        if let Some(event) = PowerEvent::from_u16(code) {
            assert_eq!(event.code(), code);
            known += 1;
        }
    }
    assert_eq!(known, 4);
    assert_eq!(PowerEvent::from_u16(0x0301), Some(PowerEvent::PowerOff));
    assert_eq!(PowerEvent::from_u16(0x0101), Some(PowerEvent::PowerOn));
    assert_eq!(PowerEvent::from_u16(0x0103), Some(PowerEvent::Charging));
    assert_eq!(PowerEvent::from_u16(0x0003), Some(PowerEvent::NotCharging));
    assert_eq!(PowerEvent::from_u16(0x0300), None);
}

#[test]
fn battery_event_lookup_inverts_code() {
    assert_eq!(BatteryEvent::BatteryReport.code(), 0xbb02);
    assert_eq!(BatteryEvent::from_u16(0xbb02), Some(BatteryEvent::BatteryReport));
    assert_eq!(BatteryEvent::from_u16(0x02bb), None);
    assert_eq!(BatteryEvent::from_u16(0xbb03), None);
}
