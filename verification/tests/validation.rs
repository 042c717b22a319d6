use wakezilla::ip::is_ip_addr_text;
use wakezilla::models::{Machine, PortForward};
use wakezilla::parse::{parse_u16, parse_u32};
use wakezilla::validation::validate_machine_form;

#[test]
fn validate_machine_form_rejects_invalid_ip() {
    let machine = Machine {
        name: "x".into(),
        mac: "AA:BB:CC:DD:EE:FF".into(),
        ip: "bad-ip".into(),
        description: None,
        turn_off_port: None,
        can_be_turned_off: false,
        inactivity_period: 30,
        port_forwards: vec![],
    };

    let errors = validate_machine_form(&machine);
    assert!(errors.contains_key("ip"));
}

fn good() -> Machine {
    Machine {
        name: "desk".into(),
        mac: "AA:BB:CC:DD:EE:FF".into(),
        ip: "192.168.1.20".into(),
        description: Some("pc".into()),
        turn_off_port: Some(3000),
        can_be_turned_off: true,
        inactivity_period: 30,
        port_forwards: vec![PortForward { name: None, local_port: 80, target_port: 8080 }],
    }
}

#[test]
fn valid_machine_has_no_errors() {
    let errors = validate_machine_form(&good());
    assert!(errors.is_empty());
    assert!(!errors.contains_key("ip"));
    assert_eq!(errors.get("ip"), None);
}

#[test]
fn every_error_message() {
    let mut m = good();
    m.name = " \t".into();
    m.turn_off_port = Some(0);
    m.mac = "   ".into();
    let errors = validate_machine_form(&m);
    assert_eq!(errors.get("name"), Some(vec!["Name is required".to_string()]));
    assert_eq!(errors.get("turn_off_port"), Some(vec!["Port must be between 1 and 65535".to_string()]));
    assert_eq!(errors.get("mac"), Some(vec!["MAC address is required".to_string()]));
    assert!(!errors.contains_key("ip"));
    m.mac = "AA:BB:CC:DD:EE".into();
    m.ip = "::1".into();
    let errors = validate_machine_form(&m);
    assert_eq!(errors.get("mac"), Some(vec!["Invalid MAC address".to_string()]));
    m.ip = "300.1.1.1".into();
    let errors = validate_machine_form(&m);
    assert_eq!(errors.get("ip"), Some(vec!["Invalid IP address".to_string()]));
    assert_eq!(errors.get("other"), None);
}

#[test]
fn mac_accepts_twelve_digits_or_hyphens() {
    let mut m = good();
    m.mac = "aabbccddeeff".into();
    assert!(!validate_machine_form(&m).contains_key("mac"));
    m.mac = "aa-bb-cc-dd-ee-ff".into();
    assert!(!validate_machine_form(&m).contains_key("mac"));
    m.mac = "aa-bb-cc-dd-ee-fg".into();
    assert!(validate_machine_form(&m).contains_key("mac"));
    m.mac = "ääbbccddeeff".into();
    assert!(validate_machine_form(&m).contains_key("mac"));
}

#[test]
fn ip_syntax_matches_std() {
    let cases = [
        ("0.0.0.0", true), ("255.255.255.255", true), ("1.2.3.4", true), ("256.1.1.1", false),
        ("01.1.1.1", false), ("1.2.3", false), ("1.2.3.4.5", false), ("1..2.3", false), ("", false),
        ("::", true), ("::1", true), ("1::", true), ("1::2", true), ("fe80::1", true),
        ("1:2:3:4:5:6:7:8", true), ("1:2:3:4:5:6:7:8:9", false), ("1:2:3:4:5:6:7::", true),
        ("1:2:3:4:5:6:7::8", false), ("::ffff:1.2.3.4", true), ("1:2:3:4:5:6:1.2.3.4", true),
        ("1:2:3:4:5:6:7:1.2.3.4", false), ("1.2.3.4::", false), (":::", false), (":1", false),
        ("1:", false), ("12345::", false), ("abcd:ef01::2", true), ("ABCD::", true), ("g::", false),
        ("1::2::3", false), ("::1.2.3.4", true), ("1:2:3:4:5::1.2.3.4", true),
        ("1:2:3:4:5:6::1.2.3.4", false), ("::0.0.0.256", false), ("1.2.3.04", false), ("0000::", true),
        ("+1.2.3.4", false), (" 1.2.3.4", false),
    ];
    for (text, valid) in cases {
        assert_eq!(is_ip_addr_text(text), valid, "{text}");
    }
}

#[test]
fn numbers_read_like_std_parse() {
    let cases: [(&str, Option<u16>, Option<u32>); 13] = [
        ("", None, None),
        ("+", None, None),
        ("0", Some(0), Some(0)),
        ("+7", Some(7), Some(7)),
        ("-1", None, None),
        ("65535", Some(65535), Some(65535)),
        ("65536", None, Some(65536)),
        ("00012", Some(12), Some(12)),
        ("1a", None, None),
        (" 1", None, None),
        ("4294967295", None, Some(4294967295)),
        ("4294967296", None, None),
        ("99999999999999999999", None, None),
    ];
    for (text, small, large) in cases {
        assert_eq!(parse_u16(text), small, "{text}");
        assert_eq!(parse_u32(text), large, "{text}");
    }
}

#[test]
fn default_machine() {
    let m = Machine::default();
    assert_eq!(m.inactivity_period, 60);
    assert!(m.name.is_empty() && m.mac.is_empty() && m.ip.is_empty());
    assert!(m.description.is_none() && m.turn_off_port.is_none() && !m.can_be_turned_off);
    assert!(m.port_forwards.is_empty());
}
