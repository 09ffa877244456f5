use carrera_live::link::{LinkAction, Session};
use carrera_live::locator::{find_device, select_port, PortInfo, RECONNECT_DELAY_SECS};
use carrera_live::model::CarState;

fn port(name: &str, maker: Option<&str>) -> PortInfo {
    PortInfo { name: name.to_string(), usb_manufacturer: maker.map(|m| m.to_string()) }
}

#[test]
fn finds_first_matching_port() {
    let ports = vec![
        port("/dev/ttyS0", None),
        port("/dev/ttyUSB0", Some("FTDI")),
        port("/dev/ttyACM0", Some("Arduino (www.arduino.cc)")),
        port("/dev/ttyACM1", Some("Arduino LLC")),
    ];
    assert_eq!(find_device(&ports), Some(2));
    assert_eq!(select_port(&ports, "FTDI"), Some(1));
    assert_eq!(select_port(&ports, "LLC"), Some(3));
}

#[test]
fn no_matching_port() {
    assert_eq!(find_device(&vec![]), None);
    let ports = vec![port("/dev/ttyUSB0", Some("arduino")), port("/dev/ttyS0", None)];
    assert_eq!(find_device(&ports), None);
}

#[test]
fn session_reconnects_and_resets() {
    let mut s = Session::new(false);
    assert_eq!(s.on_search(false), LinkAction::WaitThenSearch(RECONNECT_DELAY_SECS));
    assert_eq!(RECONNECT_DELAY_SECS, 10);
    assert!(!s.connected);
    assert_eq!(s.on_search(true), LinkAction::ReadRecord);
    assert!(s.connected);
    assert_eq!(s.on_record(b"4;10;0\r\n", 0).len(), 1);
    assert_eq!(s.on_stream_end(), LinkAction::Search);
    assert!(!s.connected);
    assert_eq!(s.telemetry.car(0).fuel_level, 10);
    assert_eq!(s.on_search(true), LinkAction::ReadRecord);
    assert_eq!(s.telemetry.car(0), CarState::default());
}

#[test]
fn session_keeps_state_when_asked() {
    let mut s = Session::new(true);
    s.on_search(true);
    s.on_record(b"5;1;4\r\n", 0);
    s.on_stream_end();
    s.on_search(true);
    assert!(s.telemetry.car(4).in_pit);
}
