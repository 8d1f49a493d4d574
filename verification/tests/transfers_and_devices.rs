use gnomeqs_core::devices::{
    auto_send_pending, device_tile_look, handoff_decision, plan_send, DeviceList,
    DeviceListChange, HandoffDecision, PendingWifiDirectSend, SendPlan,
};
use gnomeqs_core::endpoint::{DeviceType, EndpointInfo, EndpointTransport};
use gnomeqs_core::frontend::{
    visibility_look, KnownMdnsEndpoint, WifiDirectSendRequest, WifiDirectSessionReady,
};
use gnomeqs_core::wifi_direct::WifiDirectSessionInfo;
use gnomeqs_core::manager::{OutboundPayload, SendInfo, State};
use gnomeqs_core::mdns::Visibility;
use gnomeqs_core::paths::{file_icon_name, folder_to_show, icon_for_extension, open_target};
use gnomeqs_core::transfers::{
    device_icon_name, history_allows_retry, history_title, saved_text, transfer_description, RowSubtitle,
    RowTone, TransferMeta, TransferRow,
};

fn facts(has_pin: bool, has_files: bool, has_text: bool, has_open_target: bool) -> TransferMeta {
    TransferMeta {
        pin_code: if has_pin { Some("1234".to_string()) } else { None },
        files: if has_files { Some(vec!["a.jpg".to_string()]) } else { None },
        has_text,
        source_name: None,
        destination: if has_open_target { Some("/tmp/d".to_string()) } else { None },
        destination_is_dir: false,
        total_bytes: 0,
        progress_sizes: String::new(),
    }
}

fn files(list: &[&str]) -> Vec<String> {
    list.iter().map(|s| s.to_string()).collect()
}

#[test]
fn waiting_row_offers_accept_and_decline() {
    let mut row = TransferRow::new("t1".to_string());
    let look = row.update_state(State::WaitingForUserConsent, &facts(true, true, false, false));
    assert_eq!(look.tone, RowTone::Plain);
    assert_eq!(look.subtitle, RowSubtitle::Offer);
    assert!(look.buttons.accept && look.buttons.decline);
    assert!(!look.buttons.cancel && !look.buttons.clear && !look.buttons.retry);
    assert!(look.pin_visible && look.tight_buttons);
    assert!(!look.progress_visible);
    let look = row.update_state(State::WaitingForUserConsent, &facts(false, true, false, false));
    assert!(!look.pin_visible);
}

#[test]
fn moving_row_shows_progress_until_cancel_requested() {
    let mut row = TransferRow::new("t1".to_string());
    let look = row.update_state(State::ReceivingFiles, &facts(false, true, false, false));
    assert_eq!(look.tone, RowTone::Active);
    assert_eq!(look.subtitle, RowSubtitle::Receiving);
    assert!(look.progress_visible && look.buttons.cancel && look.buttons.cancel_enabled);
    let look = row.update_state(State::SendingFiles, &facts(false, true, false, false));
    assert_eq!(look.subtitle, RowSubtitle::Sending);

    row.request_cancel();
    let look = row.update_state(State::SendingFiles, &facts(false, true, false, false));
    assert_eq!(look.tone, RowTone::Error);
    assert_eq!(look.subtitle, RowSubtitle::Cancelling);
    assert!(look.buttons.cancel && !look.buttons.cancel_enabled);
    assert!(!look.progress_visible);
    assert!(row.pending_cancel);

    let look = row.update_state(State::Cancelled, &facts(false, true, false, false));
    assert!(!row.pending_cancel);
    assert_eq!(look.subtitle, RowSubtitle::Cancelled);
    assert!(look.buttons.retry && look.buttons.clear);
    let look = row.update_state(State::ReceivingFiles, &facts(false, true, false, false));
    assert_eq!(look.subtitle, RowSubtitle::Receiving);
}

#[test]
fn undelivered_cancel_is_forgotten() {
    let mut row = TransferRow::new("t1".to_string());
    row.request_cancel();
    row.cancel_not_delivered();
    let look = row.update_state(State::ReceivingFiles, &facts(false, false, false, false));
    assert_eq!(look.subtitle, RowSubtitle::Receiving);
    assert!(look.buttons.cancel_enabled);
}

#[test]
fn finished_and_failed_rows() {
    let mut row = TransferRow::new("t1".to_string());
    let look = row.update_state(State::Finished, &facts(false, true, true, true));
    assert_eq!(look.tone, RowTone::Success);
    assert_eq!(look.subtitle, RowSubtitle::Saved);
    assert!(look.buttons.open && look.buttons.show_folder && look.buttons.copy && look.buttons.clear);
    assert!(!look.buttons.retry);
    let look = row.update_state(State::Finished, &facts(false, true, false, false));
    assert!(!look.buttons.open && !look.buttons.show_folder && !look.buttons.copy);

    let look = row.update_state(State::Rejected, &facts(false, false, true, false));
    assert_eq!(look.tone, RowTone::Error);
    assert_eq!(look.subtitle, RowSubtitle::Rejected);
    assert!(!look.buttons.retry && look.buttons.clear);
    let look = row.update_state(State::Disconnected, &facts(false, true, false, false));
    assert_eq!(look.subtitle, RowSubtitle::ConnectionLost);
    assert!(look.buttons.retry);

    let look = row.update_state(State::Initial, &facts(true, true, true, true));
    assert_eq!(look.tone, RowTone::Plain);
    assert_eq!(look.subtitle, RowSubtitle::Blank);
    assert!(!look.buttons.clear && !look.buttons.accept && !look.pin_visible);
}

#[test]
fn subtitle_texts_and_history_retry() {
    assert_eq!(RowSubtitle::Rejected.fixed_text(), Some("Transfer rejected"));
    assert_eq!(RowSubtitle::Cancelled.fixed_text(), Some("Transfer cancelled"));
    assert_eq!(RowSubtitle::ConnectionLost.fixed_text(), Some("Connection lost during transfer"));
    assert_eq!(RowSubtitle::Cancelling.fixed_text(), Some("Cancelling transfer..."));
    assert_eq!(RowSubtitle::Blank.fixed_text(), Some(""));
    assert_eq!(RowSubtitle::Offer.fixed_text(), None);
    assert_eq!(RowSubtitle::Saved.fixed_text(), None);

    for t in [RowSubtitle::Rejected, RowSubtitle::Cancelled, RowSubtitle::ConnectionLost] {
        assert!(history_allows_retry(t.fixed_text().unwrap()));
    }
    assert!(!history_allows_retry("Transfer rejected "));
    assert!(!history_allows_retry("Received"));
    assert!(!history_allows_retry(&saved_text(Some("/home/u/Downloads"))));
    assert_eq!(saved_text(Some("/home/u/Downloads")), "Saved to /home/u/Downloads");
    assert_eq!(saved_text(None), "Received");
}

#[test]
fn offer_descriptions() {
    assert_eq!(transfer_description(Some(1), false), "Wants to share 1 file");
    assert_eq!(transfer_description(Some(3), true), "Wants to share 3 files");
    assert_eq!(transfer_description(Some(0), false), "Wants to share 0 files");
    assert_eq!(transfer_description(None, true), "Wants to share text");
    assert_eq!(transfer_description(None, false), "Wants to share");
}

#[test]
fn icons() {
    assert_eq!(device_icon_name(&DeviceType::Phone), "phone-symbolic");
    assert_eq!(device_icon_name(&DeviceType::Tablet), "tablet-symbolic");
    assert_eq!(device_icon_name(&DeviceType::Laptop), "computer-symbolic");
    assert_eq!(device_icon_name(&DeviceType::Unknown), "computer-symbolic");

    assert_eq!(file_icon_name("/home/u/Pictures/photo.PNG"), "image-x-generic-symbolic");
    assert_eq!(file_icon_name("clip.Mkv"), "video-x-generic-symbolic");
    assert_eq!(file_icon_name("song.flac"), "audio-x-generic-symbolic");
    assert_eq!(file_icon_name("paper.pdf"), "application-pdf-symbolic");
    assert_eq!(file_icon_name("backup.tar.GZ"), "package-x-generic-symbolic");
    assert_eq!(file_icon_name("notes.md"), "text-x-generic-symbolic");
    assert_eq!(file_icon_name("README"), "text-x-generic-symbolic");
    assert_eq!(file_icon_name(".png"), "text-x-generic-symbolic");
    assert_eq!(file_icon_name("dir.jpg/"), "image-x-generic-symbolic");
    assert_eq!(icon_for_extension(Some("jpeg")), "image-x-generic-symbolic");
    assert_eq!(icon_for_extension(Some("JPEG")), "text-x-generic-symbolic");
    assert_eq!(icon_for_extension(None), "text-x-generic-symbolic");
}

#[test]
fn open_targets() {
    let one = files(&["a.txt"]);
    let two = files(&["a.txt", "b.txt"]);
    assert_eq!(open_target(None, true, Some(&one)), None);
    assert_eq!(open_target(Some("/tmp/d"), true, Some(&one)), Some("/tmp/d/a.txt".to_string()));
    assert_eq!(open_target(Some("/tmp/d/"), true, Some(&one)), Some("/tmp/d/a.txt".to_string()));
    assert_eq!(open_target(Some("/tmp/d"), true, Some(&two)), Some("/tmp/d".to_string()));
    assert_eq!(open_target(Some("/tmp/d"), false, Some(&one)), Some("/tmp/d".to_string()));
    assert_eq!(open_target(Some("/tmp/d"), true, None), Some("/tmp/d".to_string()));
}

fn endpoint(transport: Option<EndpointTransport>) -> EndpointInfo {
    EndpointInfo {
        fullname: "full".to_string(),
        id: "ABCD".to_string(),
        name: Some("Pixel".to_string()),
        ip: Some("192.168.1.20".to_string()),
        port: Some("4321".to_string()),
        rtype: Some(DeviceType::Phone),
        present: Some(true),
        transport,
        wifi_direct_peer_path: None,
        wifi_direct_peer_mac: None,
    }
}

#[test]
fn device_tiles() {
    let look = device_tile_look(&endpoint(Some(EndpointTransport::MdnsTcp)));
    assert_eq!(look.icon, "phone-symbolic");
    assert_eq!(look.title, "Pixel");
    assert_eq!(look.transport, "Wi-Fi");
    assert_eq!(look.status, "192.168.1.20");
    assert_eq!(look.transport_class, "transport-wifi");
    assert!(look.interactive);

    let mut e = endpoint(None);
    e.ip = None;
    e.name = None;
    e.rtype = None;
    let look = device_tile_look(&e);
    assert_eq!(look.icon, "computer-symbolic");
    assert_eq!(look.title, "ABCD");
    assert_eq!(look.status, "Ready");
    assert!(!look.interactive);

    let mut p = endpoint(Some(EndpointTransport::WifiDirectPeer));
    p.ip = None;
    p.port = None;
    let look = device_tile_look(&p);
    assert_eq!(look.transport, "Wi-Fi Direct");
    assert_eq!(look.status, "Experimental");
    assert_eq!(look.transport_class, "transport-wifi-direct");
    assert!(look.interactive);
}

#[test]
fn send_plans() {
    let e = endpoint(Some(EndpointTransport::MdnsTcp));
    assert_eq!(plan_send(&e, Vec::new(), 7), SendPlan::NoFiles);
    assert_eq!(
        plan_send(&e, files(&["/tmp/a"]), 1700000000123456),
        SendPlan::Direct(SendInfo {
            id: "ABCD-1700000000123456".to_string(),
            name: "Pixel".to_string(),
            device_type: DeviceType::Phone,
            addr: "192.168.1.20:4321".to_string(),
            ob: OutboundPayload::Files(files(&["/tmp/a"])),
        })
    );
    let mut anon = endpoint(None);
    anon.name = None;
    anon.port = None;
    anon.rtype = None;
    match plan_send(&anon, files(&["x"]), 0) {
        SendPlan::Direct(info) => {
            assert_eq!(info.name, "");
            assert_eq!(info.addr, "192.168.1.20:0");
            assert_eq!(info.device_type, DeviceType::Unknown);
            assert_eq!(info.id, "ABCD-0");
        }
        other => panic!("unexpected plan {other:?}"),
    }

    let mut p = endpoint(Some(EndpointTransport::WifiDirectPeer));
    assert_eq!(plan_send(&p, files(&["x"]), 0), SendPlan::MissingPeerMac);
    p.wifi_direct_peer_mac = Some("aa:bb:cc:dd:ee:ff".to_string());
    p.name = None;
    assert_eq!(
        plan_send(&p, files(&["x", "y"]), 0),
        SendPlan::WifiDirect(WifiDirectSendRequest {
            peer_id: "ABCD".to_string(),
            peer_name: "ABCD".to_string(),
            peer_mac: "aa:bb:cc:dd:ee:ff".to_string(),
            files: files(&["x", "y"]),
        })
    );
}

#[test]
fn visibility_looks() {
    let v = visibility_look(Visibility::Visible);
    assert_eq!((v.subtitle, v.icon, v.class), ("Always visible", "eye-open-negative-filled-symbolic", "visibility-visible"));
    let v = visibility_look(Visibility::Invisible);
    assert_eq!((v.subtitle, v.icon, v.class), ("Hidden from everyone", "eye-not-looking-symbolic", "visibility-hidden"));
    let v = visibility_look(Visibility::Temporarily);
    assert_eq!((v.subtitle, v.icon, v.class), ("Temporarily visible", "eye-open-negative-filled-symbolic", "visibility-temporary"));
}

fn pending() -> PendingWifiDirectSend {
    PendingWifiDirectSend {
        peer_id: "wifi-direct:aa:bb".to_string(),
        peer_name: "  Galaxy S24 ".to_string(),
        files: files(&["/tmp/a", "/tmp/b"]),
    }
}

#[test]
fn pending_send_goes_to_the_announced_device_of_the_same_name() {
    let mut e = endpoint(Some(EndpointTransport::MdnsTcp));
    e.name = Some("galaxy s24".to_string());
    let send = auto_send_pending(&e, &pending(), 42).expect("names match");
    assert_eq!(send.id, "ABCD-42");
    assert_eq!(send.name, "galaxy s24");
    assert_eq!(send.addr, "192.168.1.20:4321");
    assert_eq!(send.device_type, DeviceType::Phone);
    assert_eq!(send.ob, OutboundPayload::Files(files(&["/tmp/a", "/tmp/b"])));

    let mut other = e.clone();
    other.name = Some("Pixel".to_string());
    assert_eq!(auto_send_pending(&other, &pending(), 42), None);
    let mut no_port = e.clone();
    no_port.port = None;
    assert_eq!(auto_send_pending(&no_port, &pending(), 42), None);
    let mut direct = e.clone();
    direct.transport = Some(EndpointTransport::WifiDirectPeer);
    assert_eq!(auto_send_pending(&direct, &pending(), 42), None);
}

fn session(candidates: &[&str]) -> WifiDirectSessionInfo {
    WifiDirectSessionInfo {
        p2p_interface: "p2p-dev-wlan0".to_string(),
        connection_name: Some("gnomeqs-wifi-direct-aabb".to_string()),
        ip_interface: Some("p2p-wlan0-0".to_string()),
        ipv4_addresses: vec!["192.168.49.1/24".to_string()],
        peer_ipv4_candidates: files(candidates),
        wifi_connected: true,
    }
}

fn ready(peer_id: &str, peer_name: &str, session: &WifiDirectSessionInfo) -> WifiDirectSessionReady {
    WifiDirectSessionReady {
        peer_id: peer_id.to_string(),
        peer_name: peer_name.to_string(),
        session: session.clone(),
    }
}

#[test]
fn handoff_decisions() {
    let p = pending();
    assert_eq!(
        handoff_decision(&p, &ready("wifi-direct:cc", "Other", &session(&["192.168.49.5"])), None, Some(5200), 9),
        HandoffDecision::OtherPeer
    );
    assert_eq!(
        handoff_decision(&p, &ready("wifi-direct:aa:bb", "x", &session(&[])), None, Some(5200), 9),
        HandoffDecision::NoPeerAddress
    );
    assert_eq!(
        handoff_decision(&p, &ready("wifi-direct:cc", "GALAXY S24", &session(&["192.168.49.5"])), None, None, 9),
        HandoffDecision::NoPort
    );
    let known = KnownMdnsEndpoint {
        name: "Galaxy S24".to_string(),
        port: "38123".to_string(),
        device_type: DeviceType::Phone,
    };
    assert_eq!(
        handoff_decision(&p, &ready("wifi-direct:aa:bb", "Galaxy", &session(&["192.168.49.5", "192.168.49.9"])), Some(&known), Some(5200), 9),
        HandoffDecision::Send(SendInfo {
            id: "wifi-direct-wifi-direct:aa:bb-9".to_string(),
            name: "Galaxy S24".to_string(),
            device_type: DeviceType::Phone,
            addr: "192.168.49.5:38123".to_string(),
            ob: OutboundPayload::Files(files(&["/tmp/a", "/tmp/b"])),
        })
    );
    assert_eq!(
        handoff_decision(&p, &ready("wifi-direct:aa:bb", "Galaxy", &session(&["192.168.49.5"])), None, Some(5200), 9),
        HandoffDecision::Send(SendInfo {
            id: "wifi-direct-wifi-direct:aa:bb-9".to_string(),
            name: "Galaxy".to_string(),
            device_type: DeviceType::Unknown,
            addr: "192.168.49.5:5200".to_string(),
            ob: OutboundPayload::Files(files(&["/tmp/a", "/tmp/b"])),
        })
    );
}

#[test]
fn device_list_follows_updates() {
    let mut shown = DeviceList::new();
    assert!(shown.is_empty());
    let e = endpoint(Some(EndpointTransport::MdnsTcp));
    assert_eq!(shown.update(&e), DeviceListChange::Added);
    assert_eq!(shown.update(&e), DeviceListChange::Unchanged);
    assert!(!shown.is_empty());

    let mut incomplete = endpoint(Some(EndpointTransport::MdnsTcp));
    incomplete.id = "EFGH".to_string();
    incomplete.ip = None;
    assert_eq!(shown.update(&incomplete), DeviceListChange::Unchanged);
    assert_eq!(shown.update(&EndpointInfo::departed("EFGH".to_string())), DeviceListChange::Unchanged);

    let mut peer = endpoint(Some(EndpointTransport::WifiDirectPeer));
    peer.id = "wifi-direct:aa".to_string();
    peer.ip = None;
    peer.port = None;
    assert_eq!(shown.update(&peer), DeviceListChange::Added);

    assert_eq!(shown.update(&EndpointInfo::departed("ABCD".to_string())), DeviceListChange::Removed);
    assert!(!shown.is_empty());
    assert_eq!(shown.update(&EndpointInfo::departed("wifi-direct:aa".to_string())), DeviceListChange::Removed);
    assert!(shown.is_empty());
}

#[test]
fn folders_to_show_and_history_titles() {
    assert_eq!(folder_to_show("/home/u/Downloads/a.txt", false), "/home/u/Downloads");
    assert_eq!(folder_to_show("/home/u/Downloads", true), "/home/u/Downloads");
    assert_eq!(folder_to_show("/", false), "/");
    assert_eq!(folder_to_show("a.txt", false), "");
    assert_eq!(history_title(""), "Recent transfer");
    assert_eq!(history_title("Pixel"), "Pixel");
}

#[test]
fn rows_keep_what_the_history_needs() {
    let mut row = TransferRow::new("t1".to_string());
    let mut m = facts(true, true, false, false);
    row.update_state(State::WaitingForUserConsent, &m);
    assert_eq!(row.history_snapshot(), (String::new(), "Wants to share 1 file".to_string()));
    assert_eq!(row.open_target_snapshot(), None);

    m.source_name = Some("Pixel".to_string());
    m.total_bytes = 2048;
    m.progress_sizes = "1.0 KB / 2.0 KB".to_string();
    row.update_state(State::ReceivingFiles, &m);
    assert_eq!(row.history_snapshot(), ("Pixel".to_string(), "Receiving · 1.0 KB / 2.0 KB".to_string()));
    m.total_bytes = 0;
    row.update_state(State::SendingFiles, &m);
    assert_eq!(row.history_snapshot().1, "Sending...");
    row.request_cancel();
    row.update_state(State::SendingFiles, &m);
    assert_eq!(row.history_snapshot().1, "Cancelling transfer...");

    m.source_name = None;
    row.update_state(State::Finished, &m);
    assert_eq!(row.history_snapshot(), ("Pixel".to_string(), "Received".to_string()));
    assert_eq!(row.open_target_snapshot(), None);

    m.destination = Some("/tmp/d".to_string());
    m.destination_is_dir = true;
    row.update_state(State::Finished, &m);
    assert_eq!(row.history_snapshot().1, "Saved to /tmp/d");
    assert_eq!(row.open_target_snapshot(), Some("/tmp/d/a.jpg".to_string()));

    for (state, text) in [
        (State::Rejected, "Transfer rejected"),
        (State::Cancelled, "Transfer cancelled"),
        (State::Disconnected, "Connection lost during transfer"),
    ] {
        let look = row.update_state(state, &m);
        assert_eq!(row.history_snapshot().1, text);
        assert_eq!(row.open_target_snapshot(), None);
        assert!(look.buttons.retry && look.buttons.clear);
    }
    row.update_state(State::Initial, &m);
    assert_eq!(row.history_snapshot().1, "");
}

#[test]
fn repeating_an_update_changes_nothing() {
    let mut a = TransferRow::new("t1".to_string());
    let mut b = TransferRow::new("t1".to_string());
    let mut m = facts(false, true, true, true);
    m.source_name = Some("Pixel".to_string());
    a.update_state(State::ReceivingFiles, &facts(false, false, false, false));
    let la = a.update_state(State::Finished, &m);
    let lb = b.update_state(State::Finished, &m);
    assert_eq!(la, lb);
    assert_eq!(a.history_snapshot(), b.history_snapshot());
    assert_eq!(a.open_target_snapshot(), b.open_target_snapshot());
    let again = a.update_state(State::Finished, &m);
    assert_eq!(again, la);
    assert_eq!(a.history_snapshot(), b.history_snapshot());
}
