use media_controller::dvd_monitor::{events_for_device, socket_ready, DiskReaderEvent, DiskType};
use media_controller::hdmi_cec::{turn_tv_off, turn_tv_on};

#[test]
fn tv_on_arguments() {
    assert_eq!(turn_tv_on(), vec!["-s", "-t0", "--active-source", "phys-addr=2.0.0.0"]);
}

#[test]
fn tv_off_arguments() {
    assert_eq!(turn_tv_off(), vec!["-s", "-t0", "--standby"]);
}

#[test]
fn drive_events() {
    let ev = events_for_device(Some("sr0"), true, true);
    assert_eq!(ev.len(), 2);
    assert!(matches!(ev[0], DiskReaderEvent::Ejected));
    assert!(matches!(ev[1], DiskReaderEvent::Inserted(DiskType::Dvd)));
    let ev = events_for_device(Some("sr0"), false, true);
    assert_eq!(ev.len(), 1);
    assert!(matches!(ev[0], DiskReaderEvent::Inserted(DiskType::Dvd)));
    let ev = events_for_device(Some("sr0"), true, false);
    assert_eq!(ev.len(), 1);
    assert!(matches!(ev[0], DiskReaderEvent::Ejected));
    assert!(events_for_device(Some("sr0"), false, false).is_empty());
    assert!(events_for_device(Some("sr1"), true, true).is_empty());
    assert!(events_for_device(Some("sda"), true, true).is_empty());
    assert!(events_for_device(None, true, true).is_empty());
}

#[test]
fn socket_readiness() {
    assert!(socket_ready(0, true));
    assert!(!socket_ready(0, false));
    assert!(!socket_ready(1, true));
}
