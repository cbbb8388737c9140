use wg_config::address::Cidr;
use wg_config::wg_interface::{INVALID_ADDRESS, INVALID_PORT, ZERO_PORT};
use wg_config::{RawKeyValues, WgAddress, WgConfError, WgInterface, WgPrivateKey};

const KEY: &str = "AQIDBAUGBwgJCgsMDQ4PEBESExQVFhcYGRobHB0eHyA=";

fn raw(entries: &[(&str, &str)]) -> RawKeyValues {
    let mut fields = RawKeyValues::new();
    for (name, value) in entries {
        fields.insert(name.to_string(), value.to_string());
    }
    fields
}

fn sample() -> WgInterface {
    WgInterface::from_raw_values(
        KEY.to_string(),
        "10.0.0.1/24".to_string(),
        "51820".to_string(),
        "iptables -A".to_string(),
        "iptables -D".to_string(),
    )
    .unwrap()
}

fn validation_failed(reason: &str) -> WgConfError {
    WgConfError::ValidationFailed(reason.to_string())
}

#[test]
fn end_to_end_renders_the_section() {
    let section = sample();
    assert_eq!(
        section.to_string(),
        "[Interface]\n\
         PrivateKey = AQIDBAUGBwgJCgsMDQ4PEBESExQVFhcYGRobHB0eHyA=\n\
         Address = 10.0.0.1/24\n\
         ListenPort = 51820\n\
         PostUp = iptables -A\n\
         PostDown = iptables -D\n\
         \n"
    );
}

#[test]
fn rendered_text_has_six_lines_and_a_trailing_blank_line() {
    let text = sample().to_string();
    assert!(text.ends_with("PostDown = iptables -D\n\n"));
    assert!(!text.ends_with("\n\n\n"));
    let lines: Vec<&str> = text.lines().collect();
    assert_eq!(lines.len(), 7);
    assert_eq!(lines[6], "");
    assert_eq!(lines[0], "[Interface]");
    assert!(lines[1].starts_with("PrivateKey = "));
    assert!(lines[2].starts_with("Address = "));
    assert!(lines[3].starts_with("ListenPort = "));
    assert!(lines[4].starts_with("PostUp = "));
    assert!(lines[5].starts_with("PostDown = "));
}

#[test]
fn trailing_blank_line_follows_any_valid_key() {
    let key = format!("{}=", "A".repeat(43));
    let section = WgInterface::from_raw_values(
        key,
        "10.0.0.1/24".to_string(),
        "51820".to_string(),
        "iptables -A".to_string(),
        "iptables -D".to_string(),
    )
    .unwrap();
    assert!(section.to_string().ends_with("PostDown = iptables -D\n\n"));
}

#[test]
fn getters_return_the_fields() {
    let section = sample();
    assert_eq!(section.private_key().to_string(), KEY);
    assert_eq!(section.address().cidr(), Cidr::V4 { addr: 0x0A00_0001, prefix: 24 });
    assert_eq!(section.address().to_string(), "10.0.0.1/24");
    assert_eq!(section.listen_port(), 51820);
    assert_eq!(section.post_up(), "iptables -A");
    assert_eq!(section.post_down(), "iptables -D");
}

#[test]
fn new_accepts_a_nonzero_port() {
    let key = WgPrivateKey::parse(KEY).unwrap();
    let address = WgAddress::parse("10.0.0.1/24").unwrap();
    let section =
        WgInterface::new(key, address, 51820, "iptables -A".to_string(), "iptables -D".to_string())
            .unwrap();
    assert_eq!(section, sample());
    assert_eq!(section.listen_port(), 51820);
}

#[test]
fn new_accepts_the_smallest_and_largest_port() {
    for port in [1u16, 65535u16] {
        let key = WgPrivateKey::parse(KEY).unwrap();
        let address = WgAddress::parse("10.0.0.1/24").unwrap();
        let section = WgInterface::new(key, address, port, String::new(), String::new()).unwrap();
        assert_eq!(section.listen_port(), port);
    }
}

#[test]
fn new_rejects_port_zero() {
    let key = WgPrivateKey::parse(KEY).unwrap();
    let address = WgAddress::parse("10.0.0.1/24").unwrap();
    let r = WgInterface::new(key, address, 0, String::new(), String::new());
    assert_eq!(r, Err(validation_failed("port can't be 0")));
    assert_eq!(ZERO_PORT, "port can't be 0");
}

#[test]
fn raw_values_reject_port_zero() {
    for port in ["0", "00", "+0"] {
        let r = WgInterface::from_raw_values(
            KEY.to_string(),
            "10.0.0.1/24".to_string(),
            port.to_string(),
            "up".to_string(),
            "down".to_string(),
        );
        assert_eq!(r, Err(validation_failed("port can't be 0")));
    }
}

#[test]
fn raw_values_reject_unreadable_port() {
    for port in ["", "+", "-1", "65536", "99999999999999999999", "51820 ", " 51820", "0x10", "１２"] {
        let r = WgInterface::from_raw_values(
            KEY.to_string(),
            "10.0.0.1/24".to_string(),
            port.to_string(),
            String::new(),
            String::new(),
        );
        assert_eq!(r, Err(validation_failed("invalid port raw value")), "port text {:?}", port);
    }
    assert_eq!(INVALID_PORT, "invalid port raw value");
}

#[test]
fn raw_values_accept_signed_and_padded_port() {
    for (text, port) in [("+51820", 51820u16), ("00080", 80), ("65535", 65535), ("000000000000000000000001", 1)] {
        let section = WgInterface::from_raw_values(
            KEY.to_string(),
            "10.0.0.1/24".to_string(),
            text.to_string(),
            String::new(),
            String::new(),
        )
        .unwrap();
        assert_eq!(section.listen_port(), port);
    }
}

#[test]
fn address_without_prefix_length_is_rejected() {
    let r = WgInterface::from_raw_values(
        KEY.to_string(),
        "10.0.0.1".to_string(),
        "51820".to_string(),
        String::new(),
        String::new(),
    );
    assert_eq!(r, Err(validation_failed("address must be address with mask (e.g. 10.0.0.1/8)")));
    assert_eq!(INVALID_ADDRESS, "address must be address with mask (e.g. 10.0.0.1/8)");
}

#[test]
fn malformed_address_is_rejected_with_the_fixed_reason() {
    for address in ["not-an-ip", "", "/", "10.0.0.1/", "10.0.0.1/33", "10.0.0.1/24/8", "fd00::1", "fd00::1/129", "10.0.0/8"] {
        let r = WgInterface::from_raw_values(
            KEY.to_string(),
            address.to_string(),
            "51820".to_string(),
            String::new(),
            String::new(),
        );
        assert_eq!(
            r,
            Err(validation_failed("address must be address with mask (e.g. 10.0.0.1/8)")),
            "address text {:?}",
            address
        );
    }
}

#[test]
fn key_errors_are_passed_on_unchanged() {
    let wrong_length = WgInterface::from_raw_values(
        "abc".to_string(),
        "10.0.0.1/24".to_string(),
        "51820".to_string(),
        String::new(),
        String::new(),
    );
    assert_eq!(wrong_length, Err(WgConfError::KeyWrongLength));
    let invalid = WgInterface::from_raw_values(
        "AQIDBAUGBwgJCgsMDQ4PEBESExQVFhcYGRobHB0eHy!=".to_string(),
        "10.0.0.1/24".to_string(),
        "51820".to_string(),
        String::new(),
        String::new(),
    );
    assert_eq!(invalid, Err(WgConfError::KeyInvalidEncoding));
}

#[test]
fn first_unreadable_field_decides_the_error() {
    let all_bad = WgInterface::from_raw_values(
        String::new(),
        "not-an-ip".to_string(),
        "zero".to_string(),
        String::new(),
        String::new(),
    );
    assert_eq!(all_bad, Err(WgConfError::KeyWrongLength));
    let address_and_port_bad = WgInterface::from_raw_values(
        KEY.to_string(),
        "not-an-ip".to_string(),
        "0".to_string(),
        String::new(),
        String::new(),
    );
    assert_eq!(
        address_and_port_bad,
        Err(validation_failed("address must be address with mask (e.g. 10.0.0.1/8)"))
    );
}

#[test]
fn commands_are_kept_verbatim() {
    let up = "  iptables -A FORWARD -i %i -j ACCEPT; echo \"ü = 1\"  ";
    let section = WgInterface::from_raw_values(
        KEY.to_string(),
        "10.0.0.1/24".to_string(),
        "1".to_string(),
        up.to_string(),
        String::new(),
    )
    .unwrap();
    assert_eq!(section.post_up(), up);
    assert_eq!(section.post_down(), "");
    assert!(section.to_string().ends_with(&format!("PostUp = {}\nPostDown = \n\n", up)));
}

#[test]
fn raw_key_values_build_the_section() {
    let fields = raw(&[
        ("PrivateKey", KEY),
        ("Address", "10.0.0.1/24"),
        ("ListenPort", "51820"),
        ("PostUp", "iptables -A"),
        ("PostDown", "iptables -D"),
    ]);
    assert_eq!(WgInterface::from_raw_key_values(&fields), Ok(sample()));
}

#[test]
fn insertion_order_does_not_matter() {
    let fields = raw(&[
        ("PostDown", "iptables -D"),
        ("ListenPort", "51820"),
        ("PostUp", "iptables -A"),
        ("Address", "10.0.0.1/24"),
        ("PrivateKey", KEY),
    ]);
    assert_eq!(WgInterface::from_raw_key_values(&fields), Ok(sample()));
}

#[test]
fn unknown_field_is_ignored() {
    let fields = raw(&[
        ("PrivateKey", KEY),
        ("MTU", "1420"),
        ("Address", "10.0.0.1/24"),
        ("ListenPort", "51820"),
        ("PostUp", "iptables -A"),
        ("PostDown", "iptables -D"),
    ]);
    assert_eq!(WgInterface::from_raw_key_values(&fields), Ok(sample()));
}

#[test]
fn field_names_are_case_sensitive() {
    let fields = raw(&[
        ("PrivateKey", KEY),
        ("Address", "10.0.0.1/24"),
        ("listenport", "51820"),
    ]);
    assert_eq!(
        WgInterface::from_raw_key_values(&fields),
        Err(validation_failed("invalid port raw value"))
    );
}

#[test]
fn missing_port_fails_like_empty_port() {
    let without = raw(&[("PrivateKey", KEY), ("Address", "10.0.0.1/24")]);
    let with_empty = raw(&[("PrivateKey", KEY), ("Address", "10.0.0.1/24"), ("ListenPort", "")]);
    let expected = Err(validation_failed("invalid port raw value"));
    assert_eq!(WgInterface::from_raw_key_values(&without), expected);
    assert_eq!(WgInterface::from_raw_key_values(&with_empty), expected);
}

#[test]
fn missing_key_and_address_fail_like_empty_ones() {
    let no_key = raw(&[("Address", "10.0.0.1/24"), ("ListenPort", "51820")]);
    assert_eq!(WgInterface::from_raw_key_values(&no_key), Err(WgConfError::KeyWrongLength));
    let no_address = raw(&[("PrivateKey", KEY), ("ListenPort", "51820")]);
    assert_eq!(
        WgInterface::from_raw_key_values(&no_address),
        Err(validation_failed("address must be address with mask (e.g. 10.0.0.1/8)"))
    );
    assert_eq!(WgInterface::from_raw_key_values(&RawKeyValues::new()), Err(WgConfError::KeyWrongLength));
}

#[test]
fn missing_commands_default_to_empty() {
    let fields = raw(&[("PrivateKey", KEY), ("Address", "10.0.0.1/24"), ("ListenPort", "51820")]);
    let section = WgInterface::from_raw_key_values(&fields).unwrap();
    assert_eq!(section.post_up(), "");
    assert_eq!(section.post_down(), "");
}

#[test]
fn later_value_replaces_earlier_one() {
    let fields = raw(&[
        ("PrivateKey", KEY),
        ("Address", "10.0.0.1/24"),
        ("Address", "192.168.1.1/16"),
        ("ListenPort", "51820"),
    ]);
    let section = WgInterface::from_raw_key_values(&fields).unwrap();
    assert_eq!(section.address().to_string(), "192.168.1.1/16");
}

#[test]
fn raw_key_values_lookup() {
    let fields = raw(&[("Address", "10.0.0.1/24")]);
    assert_eq!(fields.value("address"), "");
    assert_eq!(fields.value("Address"), "10.0.0.1/24");
    assert_eq!(fields.value("ListenPort"), "");
}

#[test]
fn rendered_fields_read_back_as_the_same_section() {
    for (address, port, up, down) in [
        ("10.0.0.1/24", "51820", "iptables -A", "iptables -D"),
        ("fd00::1/64", "1", "", ""),
        ("::ffff:10.0.0.1/96", "65535", "a = b", "# c"),
        ("0.0.0.0/0", "+007", "x", "y"),
        ("10.0.0.1/255.255.0.0", "80", "x", "y"),
    ] {
        let section = WgInterface::from_raw_values(
            KEY.to_string(),
            address.to_string(),
            port.to_string(),
            up.to_string(),
            down.to_string(),
        )
        .unwrap();
        let text = section.to_string();
        let mut fields = RawKeyValues::new();
        assert!(text.ends_with("\n\n"));
        for line in text.lines().skip(1).filter(|line| !line.is_empty()) {
            let (name, value) = line.split_once(" = ").unwrap();
            fields.insert(name.to_string(), value.to_string());
        }
        assert_eq!(WgInterface::from_raw_key_values(&fields), Ok(section));
    }
}

#[test]
fn sections_compare_field_by_field() {
    let a = sample();
    let b = a.clone();
    assert_eq!(a, b);
    let other = WgInterface::from_raw_values(
        KEY.to_string(),
        "10.0.0.1/24".to_string(),
        "51821".to_string(),
        "iptables -A".to_string(),
        "iptables -D".to_string(),
    )
    .unwrap();
    assert_ne!(a, other);
    let same_network_other_form = WgInterface::from_raw_values(
        KEY.to_string(),
        "10.0.0.1/255.255.255.0".to_string(),
        "+51820".to_string(),
        "iptables -A".to_string(),
        "iptables -D".to_string(),
    )
    .unwrap();
    assert_eq!(a, same_network_other_form);
}
