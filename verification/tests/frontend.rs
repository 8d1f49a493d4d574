use gnomeqs_core::endpoint::{DeviceType, EndpointInfo, EndpointTransport};
use gnomeqs_core::frontend::{
    cli_output, cli_request, endpoint_addr, endpoint_is_reachable, fill_placeholder, handoff_addr,
    known_mdns_endpoint, normalize_device_name, page_request, port_text, requested_page,
    session_matches_pending, session_ready_notice, should_offer_visibility,
    size_class_for_width, timestamped_id, valid_window_size, wifi_direct_status_message,
    windowed_dimension, CliRequest, KnownMdnsEndpoint, PageRequest, WifiDirectNotice,
};
use gnomeqs_core::mdns::Visibility;
use gnomeqs_core::wifi_direct::{SessionFields, WifiDirectSessionInfo, WifiDirectStatus};

fn args(list: &[&str]) -> Vec<String> {
    list.iter().map(|s| s.to_string()).collect()
}

#[test]
fn cli_flags() {
    assert_eq!(cli_request(&args(&["gnomeqs", "--version"])), CliRequest::Version);
    assert_eq!(cli_request(&args(&["gnomeqs", "-V"])), CliRequest::Version);
    assert_eq!(cli_request(&args(&["gnomeqs", "-v"])), CliRequest::Version);
    assert_eq!(cli_request(&args(&["gnomeqs", "-h", "--version"])), CliRequest::Help);
    assert_eq!(cli_request(&args(&["gnomeqs", "--page", "-v"])), CliRequest::Run);
    assert_eq!(cli_request(&args(&["gnomeqs"])), CliRequest::Run);
}

#[test]
fn page_arguments() {
    assert_eq!(requested_page(&args(&["gnomeqs", "--page", "send"])), Some("send".to_string()));
    assert_eq!(requested_page(&args(&["gnomeqs", "--page=receive"])), Some("receive".to_string()));
    assert_eq!(
        requested_page(&args(&["gnomeqs", "--page=send", "--page", "settings"])),
        Some("settings".to_string())
    );
    assert_eq!(requested_page(&args(&["gnomeqs", "--page=send", "--page"])), None);
    assert_eq!(requested_page(&args(&["--page", "x"])), None);
    assert_eq!(requested_page(&args(&["gnomeqs", "--page", "--page=x"])), Some("--page=x".to_string()));
    assert_eq!(page_request("settings".to_string()), PageRequest::Settings);
    assert_eq!(page_request("send".to_string()), PageRequest::Page("send".to_string()));
}

fn session(wifi: bool, addrs: &[&str], peers: &[&str]) -> WifiDirectSessionInfo {
    WifiDirectSessionInfo::from_parts(
        "p2p0".to_string(),
        SessionFields {
            connection_name: None,
            ip_interface: None,
            ipv4_addresses: args(addrs),
        },
        args(peers),
        wifi,
    )
}

#[test]
fn session_notices() {
    assert_eq!(session_ready_notice(&session(false, &["a"], &["b"])), WifiDirectNotice::UplinkChanged);
    assert_eq!(session_ready_notice(&session(true, &["a"], &["b"])), WifiDirectNotice::PeerLinkDetected);
    assert_eq!(session_ready_notice(&session(true, &["a"], &[])), WifiDirectNotice::ExperimentalHandoff);
    assert_eq!(session_ready_notice(&session(true, &[], &[])), WifiDirectNotice::NoDirectLink);
    assert_eq!(
        WifiDirectNotice::NotAvailable.message(),
        "Wi-Fi Direct is not available on this device right now."
    );
    assert_eq!(
        wifi_direct_status_message(&WifiDirectStatus::BackendNotRunning),
        "Your device is not compatible with Wi-Fi Direct right now because NetworkManager is not running."
    );
}

#[test]
fn placeholders() {
    assert_eq!(
        fill_placeholder("Could not start a Wi-Fi Direct session for {}.", "Pixel"),
        "Could not start a Wi-Fi Direct session for Pixel."
    );
    assert_eq!(fill_placeholder("{}{}", "a"), "aa");
    assert_eq!(fill_placeholder("{{}}", "x"), "{x}");
    assert_eq!(fill_placeholder("no braces", "x"), "no braces");
    assert_eq!(fill_placeholder("{", "x"), "{");
}

#[test]
fn visibility_offer() {
    assert!(should_offer_visibility(Visibility::Invisible, 120));
    assert!(!should_offer_visibility(Visibility::Invisible, 119));
    assert!(!should_offer_visibility(Visibility::Visible, 500));
}

#[test]
fn device_names_are_normalized() {
    assert_eq!(normalize_device_name("  Pixel 7 Pro\n"), "pixel 7 pro");
    assert_eq!(normalize_device_name("ÉCRAN"), "écran");
    assert!(session_matches_pending("wifi-direct:aa", "Pixel", "wifi-direct:aa", "Other"));
    assert!(session_matches_pending("x", " PIXEL ", "y", "pixel"));
    assert!(!session_matches_pending("x", "Pixel", "y", "Galaxy"));
}

#[test]
fn endpoints_in_the_send_view() {
    let mut info = EndpointInfo {
        id: "abc".to_string(),
        name: Some("Galaxy S21".to_string()),
        ip: Some("192.168.1.20".to_string()),
        port: Some("41000".to_string()),
        rtype: Some(DeviceType::Phone),
        transport: Some(EndpointTransport::MdnsTcp),
        ..Default::default()
    };
    assert!(endpoint_is_reachable(&info));
    assert_eq!(endpoint_addr(&info), "192.168.1.20:41000");
    assert_eq!(
        known_mdns_endpoint(&info),
        Some((
            "galaxy s21".to_string(),
            KnownMdnsEndpoint {
                name: "Galaxy S21".to_string(),
                port: "41000".to_string(),
                device_type: DeviceType::Phone
            }
        ))
    );
    info.port = None;
    assert!(!endpoint_is_reachable(&info));
    assert_eq!(endpoint_addr(&info), "192.168.1.20:0");
    assert_eq!(known_mdns_endpoint(&info), None);
    info.ip = None;
    info.transport = Some(EndpointTransport::WifiDirectPeer);
    assert!(endpoint_is_reachable(&info));
    assert_eq!(endpoint_addr(&info), ":0");
}

#[test]
fn handoff_addresses_and_ids() {
    assert_eq!(handoff_addr(&args(&["192.168.49.2", "192.168.49.3"]), "41000"), Some("192.168.49.2:41000".to_string()));
    assert_eq!(handoff_addr(&args(&[]), "41000"), None);
    assert_eq!(port_text(41000), "41000");
    assert_eq!(port_text(0), "0");
    assert_eq!(timestamped_id("wifi-direct-abc", 1700000000123456), "wifi-direct-abc-1700000000123456");
}

#[test]
fn window_sizing() {
    assert_eq!(size_class_for_width(0), None);
    assert_eq!(size_class_for_width(429), Some("size-compact"));
    assert_eq!(size_class_for_width(430), Some("size-tablet"));
    assert_eq!(size_class_for_width(760), Some("size-wide"));
    assert_eq!(valid_window_size(-3), None);
    assert_eq!(valid_window_size(800), Some(800));
    assert_eq!(windowed_dimension(900, 700, 600), 900);
    assert_eq!(windowed_dimension(0, 700, 600), 700);
    assert_eq!(windowed_dimension(-1, 0, 600), 600);
}

#[test]
fn cli_texts() {
    assert_eq!(cli_output(CliRequest::Version, "1.2.3"), Some("gnomeqs 1.2.3".to_string()));
    assert_eq!(cli_output(CliRequest::Run, "1.2.3"), None);
    let help = cli_output(CliRequest::Help, "1.2.3").expect("usage");
    assert!(help.starts_with("GnomeQS 1.2.3\n\nUsage:\n  gnomeqs [OPTIONS]"));
    assert!(help.ends_with("-v, -V, --version    Show version information"));
}
