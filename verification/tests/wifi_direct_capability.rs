use gnomeqs_core::wifi_direct::{
    capability_from_device_list, command_output, continue_capability_probe,
    device_path_from_output, device_snapshot_line, is_session_established, p2p_readiness,
    plan_wifi_direct_activation, session_fields_from_output, start_capability_probe,
    wifi_uplink_from_device_list, ActivationError, CapabilityProbe, NmcliQuery, P2pReadiness,
    SessionFields, WifiDirectBackend, WifiDirectCapability, WifiDirectSessionInfo,
    WifiDirectStatus,
};

fn nm(status: WifiDirectStatus, available: bool, iface: Option<&str>) -> WifiDirectCapability {
    WifiDirectCapability {
        backend: Some(WifiDirectBackend::NetworkManager),
        status,
        available,
        p2p_interface: iface.map(|s| s.to_string()),
    }
}

fn unavailable(status: WifiDirectStatus) -> WifiDirectCapability {
    WifiDirectCapability { backend: None, status, available: false, p2p_interface: None }
}

#[test]
fn constructors_fill_every_field() {
    assert_eq!(
        WifiDirectCapability::unavailable(WifiDirectStatus::BackendMissing),
        unavailable(WifiDirectStatus::BackendMissing)
    );
    assert_eq!(
        WifiDirectCapability::network_manager(
            WifiDirectStatus::P2pInterfaceAvailable,
            true,
            Some("p2p-dev-wlan0".to_string())
        ),
        nm(WifiDirectStatus::P2pInterfaceAvailable, true, Some("p2p-dev-wlan0"))
    );
}

#[test]
fn usable_p2p_device_makes_wifi_direct_available() {
    let out = "wlan0:wifi:connected\np2p-dev-wlan0:wifi-p2p:disconnected\nlo:loopback:unmanaged";
    assert_eq!(
        capability_from_device_list(out),
        nm(WifiDirectStatus::P2pInterfaceAvailable, true, Some("p2p-dev-wlan0"))
    );
}

#[test]
fn unusable_p2p_device_is_reported_unavailable() {
    let out = "wlan0:wifi:connected\np2p-dev-wlan0:wifi-p2p:unavailable";
    assert_eq!(
        capability_from_device_list(out),
        nm(WifiDirectStatus::P2pInterfaceUnavailable, false, Some("p2p-dev-wlan0"))
    );
}

#[test]
fn last_p2p_device_is_named_and_any_usable_one_counts() {
    let out = "p2p-a:wifi-p2p:disconnected\np2p-b:wifi-p2p:unmanaged";
    assert_eq!(
        capability_from_device_list(out),
        nm(WifiDirectStatus::P2pInterfaceAvailable, true, Some("p2p-b"))
    );
}

#[test]
fn missing_wifi_and_missing_p2p_are_told_apart() {
    assert_eq!(
        capability_from_device_list("eth0:ethernet:connected"),
        unavailable(WifiDirectStatus::NoWifiInterface)
    );
    assert_eq!(
        capability_from_device_list(""),
        unavailable(WifiDirectStatus::NoWifiInterface)
    );
    assert_eq!(
        capability_from_device_list("wlan0:wifi:unavailable\nwlan1:wifi:unknown"),
        nm(WifiDirectStatus::WifiInterfaceUnavailable, false, None)
    );
    assert_eq!(
        capability_from_device_list("wlan0:wifi:disconnected"),
        nm(WifiDirectStatus::NoP2pInterface, false, None)
    );
}

#[test]
fn short_lines_have_empty_fields() {
    // A line with only a name has neither type nor state.
    assert_eq!(
        capability_from_device_list("wlan0\nwlan1:wifi"),
        nm(WifiDirectStatus::NoP2pInterface, false, None)
    );
}

#[test]
fn probe_walks_through_both_queries() {
    assert_eq!(
        start_capability_probe(false),
        CapabilityProbe::Found(unavailable(WifiDirectStatus::BackendMissing))
    );
    assert_eq!(start_capability_probe(true), CapabilityProbe::Ask(NmcliQuery::GeneralRunning));
    assert_eq!(
        continue_capability_probe(NmcliQuery::GeneralRunning, Some("running")),
        CapabilityProbe::Ask(NmcliQuery::DeviceList)
    );
    assert_eq!(
        continue_capability_probe(NmcliQuery::GeneralRunning, Some("  running\n")),
        CapabilityProbe::Ask(NmcliQuery::DeviceList)
    );
    assert_eq!(
        continue_capability_probe(NmcliQuery::GeneralRunning, Some("asleep")),
        CapabilityProbe::Found(unavailable(WifiDirectStatus::BackendNotRunning))
    );
    assert_eq!(
        continue_capability_probe(NmcliQuery::GeneralRunning, None),
        CapabilityProbe::Found(unavailable(WifiDirectStatus::BackendQueryFailed))
    );
    assert_eq!(
        continue_capability_probe(NmcliQuery::DeviceList, None),
        CapabilityProbe::Found(unavailable(WifiDirectStatus::BackendQueryFailed))
    );
    assert_eq!(
        continue_capability_probe(NmcliQuery::DeviceList, Some("p2p-dev-wlan0:wifi-p2p:disconnected")),
        CapabilityProbe::Found(nm(
            WifiDirectStatus::P2pInterfaceAvailable,
            true,
            Some("p2p-dev-wlan0")
        ))
    );
}

#[test]
fn command_output_is_trimmed() {
    assert_eq!(command_output("  running \n"), "running");
    assert_eq!(command_output("\t\n"), "");
    assert_eq!(command_output("a b"), "a b");
}

#[test]
fn readiness_follows_status_and_interface() {
    let ready = nm(WifiDirectStatus::P2pInterfaceAvailable, true, Some("p2p0"));
    assert_eq!(p2p_readiness(&ready), P2pReadiness::Ready("p2p0".to_string()));
    let nameless = nm(WifiDirectStatus::P2pInterfaceAvailable, true, None);
    assert_eq!(p2p_readiness(&nameless), P2pReadiness::MissingInterface);
    let off = nm(WifiDirectStatus::P2pInterfaceUnavailable, false, Some("p2p0"));
    assert_eq!(p2p_readiness(&off), P2pReadiness::NotAvailable);
}

#[test]
fn device_path_is_the_second_line() {
    assert_eq!(
        device_path_from_output("p2p-dev-wlan0\n/org/freedesktop/NetworkManager/Devices/4\n"),
        Some("/org/freedesktop/NetworkManager/Devices/4".to_string())
    );
    assert_eq!(device_path_from_output("p2p-dev-wlan0\n   \n"), None);
    assert_eq!(device_path_from_output("p2p-dev-wlan0"), None);
    assert_eq!(device_path_from_output("a\r\n  /path  \r\nb"), Some("/path".to_string()));
}

#[test]
fn snapshot_joins_lines() {
    assert_eq!(
        device_snapshot_line("GENERAL.DEVICE: p2p0\nGENERAL.TYPE: wifi-p2p"),
        "GENERAL.DEVICE: p2p0 | GENERAL.TYPE: wifi-p2p"
    );
    assert_eq!(device_snapshot_line("one"), "one");
}

#[test]
fn uplink_needs_a_connected_wifi_device() {
    assert!(wifi_uplink_from_device_list("eth0:ethernet:connected\nwlan0:wifi:connected"));
    assert!(!wifi_uplink_from_device_list("wlan0:wifi:disconnected\neth0:ethernet:connected"));
    assert!(!wifi_uplink_from_device_list(""));
}

#[test]
fn session_fields_take_last_values_and_every_address() {
    let out = "GENERAL.CONNECTION:--\nGENERAL.CONNECTION:gnomeqs-wifi-direct-aabb\nGENERAL.IP-IFACE:p2p-wlan0-0\nIP4.ADDRESS[1]:192.168.49.1/24\nIP4.ADDRESS[2]:--\nIP4.ADDRESS[3]: 10.0.0.2/8 ";
    assert_eq!(
        session_fields_from_output(out),
        SessionFields {
            connection_name: Some("gnomeqs-wifi-direct-aabb".to_string()),
            ip_interface: Some("p2p-wlan0-0".to_string()),
            ipv4_addresses: vec!["192.168.49.1/24".to_string(), "10.0.0.2/8".to_string()],
        }
    );
    assert_eq!(
        session_fields_from_output("GENERAL.CONNECTION:\nGENERAL.IP-IFACE:--"),
        SessionFields { connection_name: None, ip_interface: None, ipv4_addresses: vec![] }
    );
}

#[test]
fn session_is_established_by_any_sign_of_a_link() {
    let mut s = WifiDirectSessionInfo::from_parts(
        "p2p0".to_string(),
        SessionFields { connection_name: None, ip_interface: None, ipv4_addresses: vec![] },
        vec![],
        true,
    );
    assert!(!is_session_established(&s));
    s.peer_ipv4_candidates.push("192.168.49.2".to_string());
    assert!(is_session_established(&s));
    s.peer_ipv4_candidates.clear();
    s.connection_name = Some("c".to_string());
    assert!(is_session_established(&s));
}

#[test]
fn activation_names_the_connection_after_the_mac() {
    let ready = nm(WifiDirectStatus::P2pInterfaceAvailable, true, Some("p2p-dev-wlan0"));
    let plan = plan_wifi_direct_activation(&ready, "AA:bb:0C:1d:E2:ff").unwrap();
    assert_eq!(plan.interface, "p2p-dev-wlan0");
    assert_eq!(plan.connection_name, "gnomeqs-wifi-direct-aabb0c1de2ff");
    let off = nm(WifiDirectStatus::NoP2pInterface, false, None);
    assert_eq!(plan_wifi_direct_activation(&off, "aa"), Err(ActivationError::NotAvailable));
    let nameless = nm(WifiDirectStatus::P2pInterfaceAvailable, true, None);
    assert_eq!(
        plan_wifi_direct_activation(&nameless, "aa"),
        Err(ActivationError::MissingInterface)
    );
}
