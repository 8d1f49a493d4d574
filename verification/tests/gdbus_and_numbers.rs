use gnomeqs_core::endpoint::{EndpointInfo, EndpointTransport};
use gnomeqs_core::gdbus::{
    extract_gdbus_string_property, extract_gdbus_u8_property, extract_object_paths,
    wifi_direct_peer_from_properties,
};
use gnomeqs_core::neighbors::neighbor_candidates_from_output;
use gnomeqs_core::numbers::{ipv4_text, parse_u8, u128_text, u8_text};

fn chars(s: &str) -> Vec<char> {
    s.chars().collect()
}

#[test]
fn object_paths_are_cut_at_delimiters() {
    let out = "(<[objectpath '/org/freedesktop/NetworkManager/WifiP2PPeer/1', '/org/freedesktop/NetworkManager/WifiP2PPeer/2']>,)";
    assert_eq!(
        extract_object_paths(out),
        vec![
            "/org/freedesktop/NetworkManager/WifiP2PPeer/1".to_string(),
            "/org/freedesktop/NetworkManager/WifiP2PPeer/2".to_string()
        ]
    );
    assert_eq!(extract_object_paths("(<@ao []>,)"), Vec::<String>::new());
    assert_eq!(
        extract_object_paths("x /org/freedesktop/A\t)"),
        vec!["/org/freedesktop/A".to_string()]
    );
    assert_eq!(
        extract_object_paths("/org/freedesktop/Z"),
        vec!["/org/freedesktop/Z".to_string()]
    );
}

#[test]
fn string_and_byte_properties() {
    let out = "({'Name': <'Pixel 7'>, 'HwAddress': <'AA:BB:CC:DD:EE:FF'>, 'Strength': <byte 0x42>, 'Flags': <byte 66>},)";
    assert_eq!(extract_gdbus_string_property(out, "Name"), Some("Pixel 7".to_string()));
    assert_eq!(
        extract_gdbus_string_property(out, "HwAddress"),
        Some("AA:BB:CC:DD:EE:FF".to_string())
    );
    assert_eq!(extract_gdbus_string_property(out, "Model"), None);
    assert_eq!(extract_gdbus_u8_property(out, "Strength"), None);
    assert_eq!(extract_gdbus_u8_property(out, "Flags"), Some(66));
    assert_eq!(extract_gdbus_string_property("'Name': <'unterminated", "Name"), None);
    assert_eq!(extract_gdbus_u8_property("'S': <byte  +7 >", "S"), Some(7));
}

#[test]
fn peer_is_named_by_first_non_blank_name() {
    let props = "({'Name': <' '>, 'Model': <'SM-G991B'>, 'Manufacturer': <'Samsung'>, 'HwAddress': <'aa:bb:cc:dd:ee:ff'>, 'Strength': <byte 80>},)";
    let path = "/org/freedesktop/NetworkManager/WifiP2PPeer/3";
    let peer = wifi_direct_peer_from_properties(props, path);
    assert_eq!(
        peer,
        EndpointInfo {
            fullname: path.to_string(),
            id: "wifi-direct:aa:bb:cc:dd:ee:ff".to_string(),
            name: Some("SM-G991B (80%)".to_string()),
            ip: None,
            port: None,
            rtype: None,
            present: Some(true),
            transport: Some(EndpointTransport::WifiDirectPeer),
            wifi_direct_peer_path: Some(path.to_string()),
            wifi_direct_peer_mac: Some("aa:bb:cc:dd:ee:ff".to_string()),
        }
    );
}

#[test]
fn peer_without_properties_falls_back_to_its_path() {
    let path = "/org/freedesktop/NetworkManager/WifiP2PPeer/12";
    let peer = wifi_direct_peer_from_properties("", path);
    assert_eq!(peer.id, "wifi-direct:12");
    assert_eq!(peer.name, Some("Wi-Fi Direct peer".to_string()));
    assert_eq!(peer.wifi_direct_peer_mac, None);
    let bare = wifi_direct_peer_from_properties("", "peer");
    assert_eq!(bare.id, "wifi-direct:peer");
}

#[test]
fn peer_with_only_a_hardware_address_is_named_by_it() {
    let peer = wifi_direct_peer_from_properties("{'HwAddress': <'02:00:00:00:01:00'>}", "/p/1");
    assert_eq!(peer.name, Some("02:00:00:00:01:00".to_string()));
    assert_eq!(peer.id, "wifi-direct:02:00:00:00:01:00");
}

#[test]
fn u8_parsing_follows_str_parse() {
    for (text, want) in [
        ("0", Some(0u8)),
        ("255", Some(255)),
        ("+12", Some(12)),
        ("007", Some(7)),
        ("256", None),
        ("1000", None),
        ("", None),
        ("+", None),
        ("-1", None),
        ("0x42", None),
        (" 1", None),
    ] {
        assert_eq!(parse_u8(&chars(text)), want, "{text:?}");
        assert_eq!(text.parse::<u8>().ok(), want, "{text:?}");
    }
}

#[test]
fn decimal_text_has_no_leading_zeros() {
    assert_eq!(u8_text(0), chars("0"));
    assert_eq!(u8_text(7), chars("7"));
    assert_eq!(u8_text(42), chars("42"));
    assert_eq!(u8_text(255), chars("255"));
    assert_eq!(u128_text(1_700_000_000_123_456), chars("1700000000123456"));
    assert_eq!(u128_text(u128::MAX), chars(&u128::MAX.to_string()));
}

#[test]
fn ipv4_text_accepts_only_dotted_quads() {
    let cases = [
        ("192.168.49.1", true),
        ("0.0.0.0", true),
        ("255.255.255.255", true),
        ("256.1.1.1", false),
        ("01.2.3.4", false),
        ("1.2.3", false),
        ("1.2.3.4.5", false),
        ("1..2.3", false),
        ("a.b.c.d", false),
        ("+1.2.3.4", false),
        ("1.2.3.4 ", false),
        ("", false),
        ("1.2.3.0004", false),
    ];
    for (text, want) in cases {
        assert_eq!(ipv4_text(&chars(text)), want, "{text:?}");
    }
}

#[test]
fn neighbors_are_sorted_and_unique() {
    let out = "192.168.49.5 lladdr aa:bb:cc:dd:ee:ff REACHABLE\n192.168.49.2 lladdr 11:22:33:44:55:66 STALE\nfe80::1 dev p2p0\n  192.168.49.5 FAILED\n010.1.1.1 x\n\n10.0.0.1";
    assert_eq!(
        neighbor_candidates_from_output(out),
        vec!["10.0.0.1".to_string(), "192.168.49.2".to_string(), "192.168.49.5".to_string()]
    );
    assert_eq!(neighbor_candidates_from_output(""), Vec::<String>::new());
}
