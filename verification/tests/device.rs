use cloud_flight::packets::{
    BATTERY_TRIGGER_PACKET, CHARGE_STATUS_TRIGGER_PACKET, DEVICE_STATUS_TRIGGER_PACKETS, REPORT_ID,
    TRIGGER_PACKET_LEN,
};
use cloud_flight::{
    BatteryEvent, CloudFlight, CloudFlightStatus, Event, PowerEvent, StateUpdate,
    VolumeStateChangeEvent,
};

fn report(fields: &[(usize, u8)]) -> [u8; 300] {
    let mut raw = [0u8; 300];
    for (offset, value) in fields {
        raw[*offset] = *value;
    }
    raw
}

fn initial() -> CloudFlightStatus {
    CloudFlightStatus { powered: false, muted: false, surround: false, charging: false, battery: 0 }
}

#[test]
fn new_session_starts_from_the_initial_status() {
    assert_eq!(CloudFlight::new().check_status(), initial());
}

#[test]
fn power_on_sets_powered() {
    let mut session = CloudFlight::new();
    let event = session.read(&report(&[(0, 0x0b), (3, 0x01), (4, 0x01)]), 62);
    assert_eq!(event, Event::PowerEvent(PowerEvent::PowerOn));
    assert_eq!(session.check_status(), CloudFlightStatus { powered: true, ..initial() });
}

#[test]
fn power_off_clears_powered() {
    let mut session = CloudFlight::new();
    session.read(&report(&[(0, 0x0b), (3, 0x01), (4, 0x01)]), 62);
    let event = session.read(&report(&[(0, 0x0b), (3, 0x01), (4, 0x03)]), 62);
    assert_eq!(event, Event::PowerEvent(PowerEvent::PowerOff));
    assert_eq!(session.check_status(), initial());
}

#[test]
fn cable_sets_and_clears_charging() {
    let mut session = CloudFlight::new();
    let event = session.read(&report(&[(0, 0x0b), (3, 0x03), (4, 0x01)]), 62);
    assert_eq!(event, Event::PowerEvent(PowerEvent::Charging));
    assert_eq!(session.check_status(), CloudFlightStatus { charging: true, ..initial() });
    let event = session.read(&report(&[(0, 0x0b), (3, 0x03), (4, 0x00)]), 62);
    assert_eq!(event, Event::PowerEvent(PowerEvent::NotCharging));
    assert_eq!(session.check_status(), initial());
}

#[test]
fn battery_report_sets_battery() {
    let mut session = CloudFlight::new();
    let event = session.read(&report(&[(0, 0x0b), (2, 0xbb), (3, 0x02), (7, 75)]), 62);
    assert_eq!(event, Event::BatteryNotificationEvent(BatteryEvent::BatteryReport, 75));
    assert_eq!(session.check_status(), CloudFlightStatus { battery: 75, ..initial() });
}

#[test]
fn device_info_sets_flags_without_an_event() {
    let mut session = CloudFlight::new();
    let event = session.read(&report(&[(0, 0x07), (12, 0x00), (14, 0x10)]), 62);
    assert_eq!(event, Event::Ignored);
    let status = session.check_status();
    assert!(status.muted);
    assert!(!status.surround);
    assert_eq!(status, CloudFlightStatus { muted: true, ..initial() });

    let event = session.read(&report(&[(0, 0x07), (12, 0x02), (14, 0x00)]), 62);
    assert_eq!(event, Event::Ignored);
    assert_eq!(session.check_status(), CloudFlightStatus { surround: true, ..initial() });
}

#[test]
fn mute_switch_sets_and_clears_muted() {
    let mut session = CloudFlight::new();
    let event = session.read(&report(&[(0, 0x0a), (4, 0x02)]), 62);
    assert_eq!(event, Event::MuteStateChangeEvent(VolumeStateChangeEvent::Muted));
    assert!(session.check_status().muted);
    let event = session.read(&report(&[(0, 0x0a), (4, 0x00)]), 62);
    assert_eq!(event, Event::MuteStateChangeEvent(VolumeStateChangeEvent::UnMuted));
    assert!(!session.check_status().muted);
}

#[test]
fn volume_wheel_changes_nothing() {
    let mut session = CloudFlight::new();
    session.read(&report(&[(0, 0x0b), (2, 0xbb), (3, 0x02), (7, 40)]), 62);
    let before = session.check_status();
    session.read(&report(&[(0, 0x02), (1, 0x01)]), 62);
    assert_eq!(session.check_status(), before);
}

#[test]
fn reads_without_a_report_change_nothing() {
    let mut session = CloudFlight::new();
    session.read(&report(&[(0, 0x0b), (3, 0x01), (4, 0x01)]), 62);
    session.read(&report(&[(0, 0x0b), (2, 0xbb), (3, 0x02), (7, 33)]), 62);
    let before = session.check_status();

    let mute = report(&[(0, 0x0a), (4, 0x02)]);
    assert_eq!(session.read(&mute, 0), Event::Ignored);
    assert_eq!(session.check_status(), before);
    assert_eq!(session.read(&mute, 300), Event::Ignored);
    assert_eq!(session.check_status(), before);
    assert_eq!(session.read(&mute[..14], 5), Event::Ignored);
    assert_eq!(session.check_status(), before);
    assert_eq!(session.read(&[], 0), Event::Ignored);
    assert_eq!(session.check_status(), before);
}

#[test]
fn unknown_tag_changes_nothing() {
    let mut session = CloudFlight::new();
    session.read(&report(&[(0, 0x0b), (3, 0x01), (4, 0x01)]), 62);
    let before = session.check_status();
    let mut raw = [0xffu8; 62];
    raw[0] = 0xff;
    assert_eq!(session.read(&raw, 61), Event::Ignored);
    assert_eq!(session.check_status(), before);
    raw[0] = 0x00;
    assert_eq!(session.read(&raw, 61), Event::Ignored);
    assert_eq!(session.check_status(), before);
}

#[test]
fn same_report_twice_is_the_same_as_once() {
    let reports = [
        report(&[(0, 0x0b), (3, 0x01), (4, 0x01)]),
        report(&[(0, 0x0b), (3, 0x03), (4, 0x01)]),
        report(&[(0, 0x0b), (2, 0xbb), (3, 0x02), (7, 75)]),
        report(&[(0, 0x07), (12, 0x02), (14, 0x10)]),
        report(&[(0, 0x0a), (4, 0x02)]),
        report(&[(0, 0x02), (1, 0x02)]),
        report(&[(0, 0xff)]),
    ];
    for raw in reports.iter() {
        let mut once = CloudFlight::new();
        let first = once.read(raw, 62);
        let mut twice = CloudFlight::new();
        twice.read(raw, 62);
        let second = twice.read(raw, 62);
        assert_eq!(first, second);
        assert_eq!(once.check_status(), twice.check_status());
    }
}

#[test]
fn status_is_kept_between_reports() {
    let mut session = CloudFlight::new();
    session.read(&report(&[(0, 0x0b), (3, 0x01), (4, 0x01)]), 62);
    session.read(&report(&[(0, 0x0b), (3, 0x03), (4, 0x01)]), 62);
    session.read(&report(&[(0, 0x0b), (2, 0xbb), (3, 0x02), (7, 100)]), 62);
    session.read(&report(&[(0, 0x07), (12, 0x02), (14, 0x10)]), 62);
    assert_eq!(
        session.check_status(),
        CloudFlightStatus { powered: true, muted: true, surround: true, charging: true, battery: 100 }
    );
}

#[test]
fn apply_writes_only_the_given_fields() {
    let mut session = CloudFlight::new();
    session.apply(StateUpdate {
        powered: Some(true),
        muted: None,
        surround: Some(true),
        charging: None,
        battery: Some(255),
    });
    assert_eq!(
        session.check_status(),
        CloudFlightStatus {
            powered: true,
            muted: false,
            surround: true,
            charging: false,
            battery: 255
        }
    );
    session.apply(StateUpdate::none());
    assert_eq!(session.check_status().battery, 255);
}

#[test]
fn update_applies_to_a_status_value() {
    let status = CloudFlightStatus {
        powered: true,
        muted: true,
        surround: false,
        charging: false,
        battery: 300,
    };
    let update = StateUpdate {
        powered: None,
        muted: Some(false),
        surround: None,
        charging: Some(true),
        battery: None,
    };
    let next = update.apply(status);
    assert_eq!(
        next,
        CloudFlightStatus {
            powered: true,
            muted: false,
            surround: false,
            charging: true,
            battery: 300
        }
    );
    assert_eq!(update.apply(next), next);
    assert_eq!(StateUpdate::none().apply(status), status);
}

#[test]
fn battery_request_packet_bytes() {
    let expected: [u8; 62] = [
        6, 0, 2, 0, 154, 0, 0, 104, 74, 142, 10, 0, 0, 0, 187, 2, 0, 0, 0, 0, 0, 0, 0, 0, 0, 0, 0,
        0, 0, 0, 0, 0, 0, 0, 0, 0, 0, 0, 0, 0, 0, 0, 0, 0, 0, 0, 0, 0, 0, 0, 0, 0, 0, 0, 0, 0, 0, 0,
        0, 0, 0, 0,
    ];
    assert_eq!(CloudFlight::new().request_battery(), expected);
    assert_eq!(BATTERY_TRIGGER_PACKET, expected);
}

#[test]
fn charge_status_request_packet_bytes() {
    let expected: [u8; 62] = [
        6, 0, 2, 0, 154, 0, 0, 104, 74, 142, 10, 0, 0, 0, 187, 3, 0, 0, 0, 0, 0, 0, 0, 0, 0, 0, 0,
        0, 0, 0, 0, 0, 0, 0, 0, 0, 0, 0, 0, 0, 0, 0, 0, 0, 0, 0, 0, 0, 0, 0, 0, 0, 0, 0, 0, 0, 0, 0,
        0, 0, 0, 0,
    ];
    assert_eq!(CloudFlight::new().request_charge_status(), expected);
    assert_eq!(CHARGE_STATUS_TRIGGER_PACKET, expected);
}

#[test]
fn device_info_request_packet_bytes() {
    let mut expected = [0u8; 62];
    expected[0] = 6;
    expected[4] = 0xff;
    expected[7] = 104;
    expected[8] = 74;
    expected[9] = 142;
    assert_eq!(CloudFlight::new().request_device_info(), expected);
    assert_eq!(DEVICE_STATUS_TRIGGER_PACKETS, expected);
}

#[test]
fn trigger_packets_framing() {
    assert_eq!(TRIGGER_PACKET_LEN, 62);
    assert_eq!(REPORT_ID, 6);
    let session = CloudFlight::new();
    for packet in [
        session.request_battery(),
        session.request_charge_status(),
        session.request_device_info(),
    ] {
        assert_eq!(packet.len(), TRIGGER_PACKET_LEN);
        assert_eq!(packet[0], REPORT_ID);
    }
    assert_ne!(session.request_battery(), session.request_charge_status());
    assert_ne!(session.request_battery(), session.request_device_info());
    assert_ne!(session.request_charge_status(), session.request_device_info());
}

#[test]
fn requests_leave_the_status_alone() {
    let mut session = CloudFlight::new();
    session.read(&report(&[(0, 0x0b), (2, 0xbb), (3, 0x02), (7, 75)]), 62);
    let before = session.check_status();
    session.request_battery();
    session.request_charge_status();
    session.request_device_info();
    assert_eq!(session.check_status(), before);
}
