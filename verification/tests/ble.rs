use watch_apps::peripherals::ble::{
    adv_data_cmd, adv_enable_cmd, adv_params_cmd, create_connection_cancel_cmd,
    create_connection_cmd, hex_nibble, parse_peer_addr,
};

#[test]
fn parse_upper_case_address() {
    assert_eq!(
        parse_peer_addr("AA:BB:CC:DD:EE:FF"),
        Some([0xFF, 0xEE, 0xDD, 0xCC, 0xBB, 0xAA])
    );
}

#[test]
fn parse_lower_and_mixed_case_address() {
    assert_eq!(
        parse_peer_addr("0a:1B:2c:3D:4e:5F"),
        Some([0x5F, 0x4E, 0x3D, 0x2C, 0x1B, 0x0A])
    );
    assert_eq!(parse_peer_addr("00:00:00:00:00:00"), Some([0; 6]));
}

#[test]
fn parse_rejects_short_and_long_text() {
    assert_eq!(parse_peer_addr(""), None);
    assert_eq!(parse_peer_addr("AA:BB:CC:DD:EE"), None);
    assert_eq!(parse_peer_addr("AA:BB:CC:DD:EE:F"), None);
    assert_eq!(parse_peer_addr("AA:BB:CC:DD:EE:FF:"), None);
    assert_eq!(parse_peer_addr("AA:BB:CC:DD:EE:FF0"), None);
    assert_eq!(parse_peer_addr("AA:BB:CC:DD:EE:FF:00"), None);
}

#[test]
fn parse_rejects_bad_separators_and_digits() {
    assert_eq!(parse_peer_addr("AABBCCDDEEFF"), None);
    assert_eq!(parse_peer_addr("AA-BB-CC-DD-EE-FF"), None);
    assert_eq!(parse_peer_addr("AA:BB:CC:DD:EE:FG"), None);
    assert_eq!(parse_peer_addr("GA:BB:CC:DD:EE:FF"), None);
    assert_eq!(parse_peer_addr(" AA:BB:CC:DD:EE:F"), None);
    assert_eq!(parse_peer_addr("AA:BB:CC:DD:EE::F"), None);
}

#[test]
fn hex_nibble_values() {
    assert_eq!(hex_nibble(b'0'), Some(0));
    assert_eq!(hex_nibble(b'9'), Some(9));
    assert_eq!(hex_nibble(b'a'), Some(10));
    assert_eq!(hex_nibble(b'f'), Some(15));
    assert_eq!(hex_nibble(b'A'), Some(10));
    assert_eq!(hex_nibble(b'F'), Some(15));
    assert_eq!(hex_nibble(b'g'), None);
    assert_eq!(hex_nibble(b'G'), None);
    assert_eq!(hex_nibble(b':'), None);
    assert_eq!(hex_nibble(b'/'), None);
    assert_eq!(hex_nibble(0xFF), None);
}

fn mac_text(a: [u8; 6]) -> String {
    let groups: Vec<String> = a.iter().rev().map(|b| format!("{:02X}", b)).collect();
    groups.join(":")
}

#[test]
fn parse_gives_back_the_written_address() {
    for a in [[1u8, 2, 3, 4, 5, 6], [0xFF, 0x00, 0x7F, 0x80, 0xA5, 0x5A], [0; 6]] {
        let text = mac_text(a);
        assert_eq!(parse_peer_addr(&text), Some(a));
    }
}

#[test]
fn advertising_parameters_packet() {
    assert_eq!(
        adv_params_cmd(),
        [0x01, 0x06, 0x20, 15, 0x00, 0x08, 0x00, 0x08, 0x00, 0x00, 0x00, 0, 0, 0, 0, 0, 0, 0x07, 0x00]
    );
}

#[test]
fn advertising_data_packet() {
    let cmd = adv_data_cmd();
    assert_eq!(&cmd[..10], &[0x01, 0x08, 0x20, 32, 15, 2, 0x01, 0x06, 11, 0x09]);
    assert_eq!(&cmd[10..20], b"Rust Watch");
    assert!(cmd[20..].iter().all(|&b| b == 0));
    // significant octets: flags AD (3) + name AD length byte and body (1 + 11)
    assert_eq!(cmd[4] as usize, 3 + 1 + cmd[8] as usize);
}

#[test]
fn advertising_enable_packets() {
    assert_eq!(adv_enable_cmd(true), [0x01, 0x0A, 0x20, 1, 0x01]);
    assert_eq!(adv_enable_cmd(false), [0x01, 0x0A, 0x20, 1, 0x00]);
}

#[test]
fn create_connection_packet() {
    let addr = parse_peer_addr("11:22:33:44:55:66").unwrap();
    let cmd = create_connection_cmd(addr, false);
    assert_eq!(
        cmd,
        [
            0x01, 0x0D, 0x20, 25, 0x10, 0x00, 0x10, 0x00, 0x00, 0x00, 0x66, 0x55, 0x44, 0x33,
            0x22, 0x11, 0x00, 0x18, 0x00, 0x28, 0x00, 0x00, 0x00, 0xC8, 0x00, 0x00, 0x00, 0x00,
            0x00
        ]
    );
    let random = create_connection_cmd(addr, true);
    assert_eq!(random[9], 0x01);
    assert_eq!(random[3] as usize, random.len() - 4);
}

#[test]
fn create_connection_cancel_packet() {
    assert_eq!(create_connection_cancel_cmd(), [0x01, 0x0E, 0x20, 0]);
}
