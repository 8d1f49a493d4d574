use gnomeqs_core::devices::{
    DeviceListChange, HandoffDecision, PendingWifiDirectSend, RetryRequest, SendViewState,
};
use gnomeqs_core::endpoint::{DeviceType, EndpointInfo, EndpointTransport};
use gnomeqs_core::frontend::WifiDirectSessionReady;
use gnomeqs_core::ids::TextMap;
use gnomeqs_core::manager::{ChannelAction, ChannelDirection, OutboundPayload, SendInfo};
use gnomeqs_core::mdns::{toggled_visibility, Visibility};
use gnomeqs_core::transfers::{
    channel_request, pin_text, HistoryList, RowButton, RowSubtitle, RowTone, TransferCommand,
    TransferListChange, TransferRow,
};
use gnomeqs_core::wifi_direct::{
    wait_decision, wait_phase, WaitDecision, WaitPhase, WifiDirectSessionInfo,
};

fn strings(list: &[&str]) -> Vec<String> {
    list.iter().map(|s| s.to_string()).collect()
}

fn mdns_device(id: &str, name: &str, port: &str) -> EndpointInfo {
    EndpointInfo {
        fullname: String::new(),
        id: id.to_string(),
        name: Some(name.to_string()),
        ip: Some("192.168.1.20".to_string()),
        port: Some(port.to_string()),
        rtype: Some(DeviceType::Tablet),
        present: Some(true),
        transport: Some(EndpointTransport::MdnsTcp),
        wifi_direct_peer_path: None,
        wifi_direct_peer_mac: None,
    }
}

#[test]
fn a_new_row_shows_nothing_and_sends_its_commands() {
    let row = TransferRow::new("t9".to_string());
    assert!(!row.pending_cancel);
    assert_eq!(row.history_snapshot(), (String::new(), String::new()));
    assert_eq!(row.open_target_snapshot(), None);
    let look = TransferRow::initial_look();
    assert_eq!(look.tone, RowTone::Plain);
    assert_eq!(look.subtitle, RowSubtitle::Blank);
    let b = look.buttons;
    assert!(!b.accept && !b.decline && !b.cancel && !b.open && !b.show_folder);
    assert!(!b.copy && !b.retry && !b.clear);
    assert!(!look.progress_visible && !look.pin_visible);
    assert_eq!(row.button_command(RowButton::Accept), TransferCommand::Accept("t9".to_string()));
    assert_eq!(row.button_command(RowButton::Decline), TransferCommand::Reject("t9".to_string()));
    assert_eq!(row.button_command(RowButton::Cancel), TransferCommand::Cancel("t9".to_string()));
    assert_eq!(pin_text("1234"), "PIN 1234");
}

#[test]
fn commands_become_channel_requests() {
    let r = channel_request(&TransferCommand::Accept("a".to_string()));
    assert_eq!((r.id.as_str(), r.direction, r.action, r.cancels_transfer), ("a", ChannelDirection::FrontToLib, ChannelAction::AcceptTransfer, false));
    let r = channel_request(&TransferCommand::Reject("b".to_string()));
    assert_eq!((r.id.as_str(), r.action, r.cancels_transfer), ("b", ChannelAction::RejectTransfer, false));
    let r = channel_request(&TransferCommand::Cancel("c".to_string()));
    assert_eq!((r.id.as_str(), r.action, r.cancels_transfer), ("c", ChannelAction::CancelTransfer, true));
}

#[test]
fn visibility_toggle() {
    assert_eq!(toggled_visibility(0), Visibility::Invisible);
    assert_eq!(toggled_visibility(1), Visibility::Visible);
    assert_eq!(toggled_visibility(2), Visibility::Visible);
}

#[test]
fn text_maps() {
    let mut m: TextMap<u32> = TextMap::new();
    assert_eq!(m.get("a"), None);
    m.insert("a".to_string(), 1);
    m.insert("b".to_string(), 2);
    m.insert("a".to_string(), 3);
    assert_eq!(m.get("a"), Some(&3));
    assert_eq!(m.get("b"), Some(&2));
    assert_eq!(m.get("c"), None);
}

#[test]
fn send_view_remembers_mdns_devices_and_sends() {
    let mut v = SendViewState::new(false);
    let tab = mdns_device("ABCD", " Galaxy Tab ", "4444");
    assert_eq!(v.update_endpoint(&tab), DeviceListChange::Added);
    let known = v.known.get("galaxy tab").expect("remembered");
    assert_eq!((known.name.as_str(), known.port.as_str(), known.device_type.clone()), (" Galaxy Tab ", "4444", DeviceType::Tablet));

    let mut gone = EndpointInfo::departed("ABCD".to_string());
    gone.transport = Some(EndpointTransport::MdnsTcp);
    gone.name = Some("Other".to_string());
    gone.port = Some("1".to_string());
    gone.ip = Some("1.2.3.4".to_string());
    assert_eq!(v.update_endpoint(&gone), DeviceListChange::Removed);
    assert!(v.known.get("other").is_none());
    assert!(v.devices.is_empty());

    let send = SendInfo {
        id: "ABCD-5".to_string(),
        name: "Galaxy Tab".to_string(),
        device_type: DeviceType::Tablet,
        addr: "192.168.1.20:4444".to_string(),
        ob: OutboundPayload::Files(strings(&["/tmp/a"])),
    };
    v.record_send(&send);
    let want = RetryRequest {
        name: "Galaxy Tab".to_string(),
        device_type: DeviceType::Tablet,
        addr: "192.168.1.20:4444".to_string(),
        files: strings(&["/tmp/a"]),
    };
    assert_eq!(v.take_message("ABCD-5", true, true), (TransferListChange::Added, Some(want.clone())));
    assert_eq!(v.take_message("ABCD-5", true, true), (TransferListChange::Updated, None));
    assert_eq!(v.take_message("other", true, true), (TransferListChange::Added, None));
    assert_eq!(v.take_message("late", false, true), (TransferListChange::Ignored, None));
    assert_eq!(v.clear("ABCD-5", "Transfer rejected"), (true, Some(want)));
    assert_eq!(v.clear("ABCD-5", "Transfer rejected"), (false, None));
    assert_eq!(v.clear("other", "Received"), (true, None));
    assert!(v.transfers.look().header_visible);
}

#[test]
fn handoff_uses_the_remembered_port() {
    let mut v = SendViewState::new(false);
    v.update_endpoint(&mdns_device("ABCD", "Galaxy Tab", "4444"));
    let pending = PendingWifiDirectSend {
        peer_id: "wifi-direct:aa".to_string(),
        peer_name: "Galaxy Tab".to_string(),
        files: strings(&["/tmp/a"]),
    };
    let ready = WifiDirectSessionReady {
        peer_id: "wifi-direct:aa".to_string(),
        peer_name: "GALAXY TAB".to_string(),
        session: WifiDirectSessionInfo {
            p2p_interface: "p2p0".to_string(),
            connection_name: None,
            ip_interface: None,
            ipv4_addresses: Vec::new(),
            peer_ipv4_candidates: strings(&["192.168.49.7"]),
            wifi_connected: true,
        },
    };
    assert_eq!(
        v.handoff(&pending, &ready, Some(5200), 3),
        HandoffDecision::Send(SendInfo {
            id: "wifi-direct-wifi-direct:aa-3".to_string(),
            name: "Galaxy Tab".to_string(),
            device_type: DeviceType::Tablet,
            addr: "192.168.49.7:4444".to_string(),
            ob: OutboundPayload::Files(strings(&["/tmp/a"])),
        })
    );
    let fresh = SendViewState::new(false);
    match fresh.handoff(&pending, &ready, None, 3) {
        HandoffDecision::NoPort => {}
        other => panic!("unexpected {other:?}"),
    }
}

#[test]
fn history_keeps_six_entries() {
    let mut h = HistoryList::new();
    for i in 0..8 {
        h.prepend(&format!("t{i}"), "Received".to_string(), None, None);
    }
    assert_eq!(h.rows.len(), 6);
    assert_eq!(h.rows[0].title, "t7");
    assert_eq!(h.rows[5].title, "t2");
    h.prepend("", "Transfer rejected".to_string(), None, Some("/tmp/x".to_string()));
    assert_eq!(h.rows.len(), 6);
    assert_eq!(h.rows[0].title, "Recent transfer");
    assert_eq!(h.rows[0].open_target, Some("/tmp/x".to_string()));
    assert_eq!(h.rows[1].title, "t7");
}

#[test]
fn waiting_for_a_session() {
    assert_eq!(wait_phase(0, 12000), WaitPhase::Polling);
    assert_eq!(wait_phase(12000, 12000), WaitPhase::FinalPoll);
    let mut s = WifiDirectSessionInfo {
        p2p_interface: "p2p0".to_string(),
        connection_name: None,
        ip_interface: None,
        ipv4_addresses: Vec::new(),
        peer_ipv4_candidates: Vec::new(),
        wifi_connected: true,
    };
    assert_eq!(wait_decision(WaitPhase::Polling, None), WaitDecision::Fail);
    assert_eq!(wait_decision(WaitPhase::FinalPoll, None), WaitDecision::Fail);
    assert_eq!(wait_decision(WaitPhase::Polling, Some(&s)), WaitDecision::PollAgainAfter(800));
    assert_eq!(wait_decision(WaitPhase::FinalPoll, Some(&s)), WaitDecision::Deliver);
    s.connection_name = Some("gnomeqs-wifi-direct-aa".to_string());
    assert_eq!(wait_decision(WaitPhase::Polling, Some(&s)), WaitDecision::Deliver);
}
