use gnomeqs_core::frontend::{visibility_offer_text, window_action, UiMessage, WindowAction};
use gnomeqs_core::frontend::session_start_message;
use gnomeqs_core::wifi_direct::WifiDirectSessionInfo;
use gnomeqs_core::devices::{
    retry_request_of, retry_send, DiscoveryCommand, DiscoverySwitch, RetryOrigin, RetryRequest,
    SelectedFiles,
};
use gnomeqs_core::endpoint::DeviceType;
use gnomeqs_core::frontend::{
    history_retention_notice, language_environment, notification_body, route_transfer_update,
    PageTracker, TransferRoute,
};
use gnomeqs_core::ids::IdSet;
use gnomeqs_core::paths::file_display_name;
use gnomeqs_core::manager::{ChannelDirection, OutboundPayload, SendInfo, State, TransferType};
use gnomeqs_core::transfers::{TransferList, TransferListChange};

fn files(list: &[&str]) -> Vec<String> {
    list.iter().map(|s| s.to_string()).collect()
}

#[test]
fn retry_keeps_device_address_and_files() {
    let send = SendInfo {
        id: "ABCD-1".to_string(),
        name: "Pixel".to_string(),
        device_type: DeviceType::Phone,
        addr: "192.168.1.20:4321".to_string(),
        ob: OutboundPayload::Files(files(&["/tmp/a"])),
    };
    let kept = retry_request_of(&send);
    assert_eq!(
        kept,
        RetryRequest {
            name: "Pixel".to_string(),
            device_type: DeviceType::Phone,
            addr: "192.168.1.20:4321".to_string(),
            files: files(&["/tmp/a"]),
        }
    );
    let from_history = retry_send(&kept, RetryOrigin::History, 5);
    assert_eq!(from_history.id, "192.168.1.20:4321-history-5");
    assert_eq!(from_history.addr, send.addr);
    let again = retry_send(&kept, RetryOrigin::Row, 77);
    assert_eq!(
        again,
        SendInfo {
            id: "192.168.1.20:4321-retry-77".to_string(),
            name: "Pixel".to_string(),
            device_type: DeviceType::Phone,
            addr: "192.168.1.20:4321".to_string(),
            ob: OutboundPayload::Files(files(&["/tmp/a"])),
        }
    );
}

#[test]
fn id_sets() {
    let mut ids = IdSet::new();
    assert!(ids.is_empty());
    assert!(ids.insert("a"));
    assert!(!ids.insert("a"));
    assert!(ids.insert("b"));
    assert!(ids.contains("a") && ids.contains("b") && !ids.contains("c"));
    assert!(ids.remove("a"));
    assert!(!ids.remove("a"));
    assert!(!ids.contains("a"));
    assert!(!ids.is_empty());
    assert!(ids.remove("b"));
    assert!(ids.is_empty());
}

#[test]
fn transfer_list_and_its_section() {
    let mut list = TransferList::new(false);
    let look = list.look();
    assert!(!look.list_visible && !look.heading_visible && !look.header_visible && look.empty_page_visible);

    assert_eq!(list.take_message("t1", true, false), TransferListChange::Ignored);
    assert!(list.look().empty_page_visible);
    assert_eq!(list.take_message("t1", true, true), TransferListChange::Added);
    assert_eq!(list.take_message("t1", true, true), TransferListChange::Updated);
    let look = list.look();
    assert!(look.list_visible && look.heading_visible && look.header_visible && !look.empty_page_visible);

    assert!(!list.clear("other"));
    assert!(list.clear("t1"));
    let look = list.look();
    assert!(!look.list_visible && !look.heading_visible && look.header_visible && look.empty_page_visible);

    let with_history = TransferList::new(true);
    assert!(with_history.look().header_visible);
}

#[test]
fn pages_of_the_window() {
    let mut pages = PageTracker::new();
    let look = pages.visit(Some("send")).expect("first visit");
    assert!(look.on_send_page && look.back_visible && look.discovery_running);
    assert!(!look.nav_bar_visible && !look.settings_visible);
    assert_eq!(look.title, "Send Files");
    assert_eq!(pages.visit(Some("send")), None);
    let look = pages.visit(Some("receive")).expect("page changed");
    assert!(!look.on_send_page && look.nav_bar_visible && look.settings_visible);
    assert!(!look.back_visible && !look.discovery_running);
    assert_eq!(look.title, "GnomeQS");
    let look = pages.visit(None).expect("page changed");
    assert!(!look.on_send_page);
    assert_eq!(pages.visit(None), None);
}

#[test]
fn transfer_messages_are_routed() {
    assert_eq!(route_transfer_update(ChannelDirection::FrontToLib, Some(TransferType::Inbound), None, true), TransferRoute::Ignore);
    assert_eq!(
        route_transfer_update(ChannelDirection::LibToFront, Some(TransferType::Inbound), Some(State::WaitingForUserConsent), true),
        TransferRoute::Receive { notify: true }
    );
    assert_eq!(
        route_transfer_update(ChannelDirection::LibToFront, Some(TransferType::Inbound), Some(State::WaitingForUserConsent), false),
        TransferRoute::Receive { notify: false }
    );
    assert_eq!(
        route_transfer_update(ChannelDirection::LibToFront, Some(TransferType::Inbound), Some(State::ReceivingFiles), true),
        TransferRoute::Receive { notify: false }
    );
    assert_eq!(
        route_transfer_update(ChannelDirection::LibToFront, Some(TransferType::Outbound), Some(State::WaitingForUserConsent), true),
        TransferRoute::Send
    );
    assert_eq!(route_transfer_update(ChannelDirection::LibToFront, None, None, false), TransferRoute::Receive { notify: false });
    assert_eq!(notification_body(Some("Pixel")), "Pixel wants to share");
    assert_eq!(notification_body(None), "Unknown wants to share");
}

#[test]
fn discovery_commands() {
    let mut switch = DiscoverySwitch::new();
    assert_eq!(switch.command_for(false), None);
    assert_eq!(switch.command_for(true), Some(DiscoveryCommand::Start));
    switch.delivered(DiscoveryCommand::Start);
    assert!(switch.active);
    assert_eq!(switch.command_for(true), None);
    assert_eq!(switch.command_for(false), Some(DiscoveryCommand::Stop));
    switch.delivered(DiscoveryCommand::Stop);
    assert!(!switch.active);
}

#[test]
fn language_and_retention_texts() {
    let pt = language_environment(Some("pt_BR")).expect("known language");
    assert_eq!((pt.language, pt.lang), ("pt_BR", "pt_BR.UTF-8"));
    let en = language_environment(Some("en")).expect("known language");
    assert_eq!((en.language, en.lang), ("en", "en_US.UTF-8"));
    assert_eq!(language_environment(Some("de")), None);
    assert_eq!(language_environment(None), None);
    assert_eq!(
        history_retention_notice(7),
        "Transfer history is stored locally for up to 7 days by default, unless changed in Settings."
    );
}

#[test]
fn file_selection() {
    let mut sel = SelectedFiles::new();
    let look = sel.look();
    assert_eq!(look.hint, Some("Drop files here or use Select"));
    assert!(!look.clear_visible && !look.list_visible);
    sel.pick(Vec::new());
    assert!(sel.files.is_empty());
    sel.pick(files(&["/a", "/b"]));
    sel.drop_in("/c".to_string());
    assert_eq!(sel.files, files(&["/a", "/b", "/c"]));
    sel.remove(7);
    assert_eq!(sel.files, files(&["/a", "/b", "/c"]));
    sel.remove(1);
    assert_eq!(sel.files, files(&["/a", "/c"]));
    let look = sel.look();
    assert_eq!(look.hint, None);
    assert!(look.clear_visible && look.list_visible);
    sel.pick(files(&["/d"]));
    assert_eq!(sel.files, files(&["/d"]));
    sel.clear();
    assert!(sel.files.is_empty());

    assert_eq!(file_display_name("/home/u/photo.png"), "photo.png");
    assert_eq!(file_display_name("/home/u/dir/"), "dir");
    assert_eq!(file_display_name("/"), "/");
    assert_eq!(file_display_name("/home/.."), "/home/..");
}

#[test]
fn session_start_messages() {
    assert_eq!(
        session_start_message("Pixel", false, None),
        "Could not start a Wi-Fi Direct session for Pixel."
    );
    assert_eq!(
        session_start_message("Pixel", true, None),
        "Wi-Fi Direct started, but the session state could not be verified."
    );
    assert_eq!(
        session_start_message("Pixel", true, Some(None)),
        "Wi-Fi Direct is not available on this device right now."
    );
    let s = WifiDirectSessionInfo {
        p2p_interface: "p2p0".to_string(),
        connection_name: None,
        ip_interface: None,
        ipv4_addresses: Vec::new(),
        peer_ipv4_candidates: vec!["192.168.49.2".to_string()],
        wifi_connected: true,
    };
    assert_eq!(
        session_start_message("Pixel", true, Some(Some(&s))),
        "Wi-Fi Direct session started and a direct peer link was detected."
    );
}

#[test]
fn window_messages() {
    assert_eq!(
        window_action(UiMessage::TransferUpdate {
            direction: ChannelDirection::LibToFront,
            rtype: Some(TransferType::Outbound),
            state: None,
            has_meta: true,
        }),
        WindowAction::Transfer(TransferRoute::Send)
    );
    assert_eq!(
        window_action(UiMessage::TransferUpdate {
            direction: ChannelDirection::FrontToLib,
            rtype: Some(TransferType::Outbound),
            state: None,
            has_meta: true,
        }),
        WindowAction::Transfer(TransferRoute::Ignore)
    );
    assert_eq!(window_action(UiMessage::EndpointUpdate), WindowAction::SendViewEndpoint);
    assert_eq!(window_action(UiMessage::VisibilityChanged), WindowAction::ReceiveViewVisibility);
    assert_eq!(window_action(UiMessage::BleNearby), WindowAction::OfferVisibility);
    assert_eq!(window_action(UiMessage::Toast), WindowAction::ShowToast);
    assert_eq!(window_action(UiMessage::WifiDirectSessionReady), WindowAction::SendViewSession);
    assert_eq!(window_action(UiMessage::ShowWindow), WindowAction::Present);
    assert_eq!(window_action(UiMessage::ShowWindowOnPage), WindowAction::PresentOnPage);
    assert_eq!(window_action(UiMessage::ShowSettings), WindowAction::PresentSettings);
    assert_eq!(window_action(UiMessage::Quit), WindowAction::SaveAndQuit);
    assert_eq!(visibility_offer_text(), "A nearby device wants to share. Tap to become visible.");
}
