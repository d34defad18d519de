use serial_session::{open_settings, port_exists, PortSettings, SessionError, READ_TIMEOUT_MS};

fn listing(names: &[&str]) -> Option<Vec<String>> {
    Some(names.iter().map(|n| n.to_string()).collect())
}

#[test]
fn port_exists_finds_listed_name() {
    let l = listing(&["/dev/ttyS0", "/dev/ttyUSB0"]);
    assert!(port_exists(&l, "/dev/ttyUSB0"));
    assert!(!port_exists(&l, "/dev/ttyUSB"));
}

#[test]
fn port_exists_false_when_listing_failed() {
    assert!(!port_exists(&None, "COM3"));
    assert!(!port_exists(&listing(&[]), "COM3"));
}

#[test]
fn port_exists_fabricated_name_on_host() {
    let host = serialport::available_ports()
        .ok()
        .map(|ports| ports.into_iter().map(|p| p.port_name).collect::<Vec<String>>());
    assert!(!port_exists(&host, "/dev/never-registered-serial-device-7f3a"));
}

#[test]
fn open_settings_fixed_framing() {
    let s = open_settings("COM3", 115200, listing(&["COM1", "COM3"]));
    assert_eq!(
        s,
        Ok(PortSettings {
            port_name: "COM3".to_string(),
            baud_rate: 115200,
            data_bits: 8,
            stop_bits: 1,
            parity: false,
            timeout_ms: READ_TIMEOUT_MS,
        })
    );
    assert_eq!(READ_TIMEOUT_MS, 100);
}

#[test]
fn open_settings_port_not_found() {
    let s = open_settings("COM9", 9600, listing(&["COM1", "COM3"]));
    assert_eq!(
        s,
        Err(SessionError::PortNotFound {
            port: "COM9".to_string(),
            available: vec!["COM1".to_string(), "COM3".to_string()],
        })
    );
    let s = open_settings("COM9", 9600, None);
    assert_eq!(
        s,
        Err(SessionError::PortNotFound { port: "COM9".to_string(), available: vec![] })
    );
}
