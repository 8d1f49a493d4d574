use gnomeqs_core::discovery::{poll_due, signal_requests_refresh, PeerTracker};
use gnomeqs_core::endpoint::{EndpointInfo, EndpointTransport};
use gnomeqs_core::manager::{
    accepts_inbound, inbound_failure_plan, mdns_resend_delays_ms,
    outbound_failure_reports_disconnect, schedules_mdns_resend, InboundFailurePlan, State,
};
use gnomeqs_core::mdns::{
    build_service, AnnouncerActions, AnnouncerEvent, MdnsAnnouncer, ServiceRecordError,
    Visibility,
};

fn peer(id: &str, name: &str) -> EndpointInfo {
    EndpointInfo {
        fullname: format!("/org/freedesktop/NetworkManager/WifiP2PPeer/{id}"),
        id: id.to_string(),
        name: Some(name.to_string()),
        present: Some(true),
        transport: Some(EndpointTransport::WifiDirectPeer),
        ..Default::default()
    }
}

fn ids(events: &[EndpointInfo]) -> Vec<(String, Option<bool>)> {
    events.iter().map(|e| (e.id.clone(), e.present)).collect()
}

#[test]
fn new_peers_are_announced_once() {
    let mut t = PeerTracker::new();
    let events = t.observe(vec![peer("a", "A"), peer("b", "B"), peer("a", "A again")]);
    assert_eq!(
        ids(&events),
        vec![("a".to_string(), Some(true)), ("b".to_string(), Some(true))]
    );
    assert_eq!(events[0].name, Some("A".to_string()));
    let again = t.observe(vec![peer("b", "B"), peer("a", "A")]);
    assert!(again.is_empty());
}

#[test]
fn vanished_peers_are_reported_gone() {
    let mut t = PeerTracker::new();
    t.observe(vec![peer("a", "A"), peer("b", "B")]);
    let events = t.observe(vec![peer("b", "B"), peer("c", "C")]);
    assert_eq!(
        ids(&events),
        vec![("c".to_string(), Some(true)), ("a".to_string(), Some(false))]
    );
    assert_eq!(events[1], EndpointInfo { id: "a".to_string(), present: Some(false), ..Default::default() });
    let stop = t.finish();
    let mut gone = ids(&stop);
    gone.sort();
    assert_eq!(gone, vec![("b".to_string(), Some(false)), ("c".to_string(), Some(false))]);
}

#[test]
fn finishing_without_peers_reports_nothing() {
    assert!(PeerTracker::new().finish().is_empty());
}

#[test]
fn refresh_signals_and_poll_interval() {
    assert!(signal_requests_refresh("/org/fd: org.freedesktop.NetworkManager.Device.WifiP2P.PeerAdded (objectpath '/x',)"));
    assert!(signal_requests_refresh("...PeerRemoved..."));
    assert!(!signal_requests_refresh("PropertiesChanged"));
    assert!(poll_due(true, 0));
    assert!(poll_due(false, 2000));
    assert!(!poll_due(false, 1999));
}

fn actions(register: bool, resend: bool, unregister: bool) -> AnnouncerActions {
    AnnouncerActions {
        unregister,
        register,
        resend,
        restart_temporary_timer: false,
        publish_invisible: false,
        stop: false,
    }
}

#[test]
fn visibility_numbers() {
    assert_eq!(Visibility::from_raw_value(0), Visibility::Visible);
    assert_eq!(Visibility::from_raw_value(1), Visibility::Invisible);
    assert_eq!(Visibility::from_raw_value(2), Visibility::Temporarily);
    assert_eq!(Visibility::Temporarily.raw_value(), 2);
}

#[test]
fn announcer_registers_unless_hidden() {
    let (a, act) = MdnsAnnouncer::start(Visibility::Visible);
    assert!(a.is_registered());
    assert_eq!(act, actions(true, false, false));
    let (h, act) = MdnsAnnouncer::start(Visibility::Invisible);
    assert!(!h.is_registered());
    assert_eq!(act, actions(false, false, false));
}

#[test]
fn announcer_reacts_to_visibility_and_ticks() {
    let (mut a, _) = MdnsAnnouncer::start(Visibility::Visible);
    assert_eq!(a.handle(AnnouncerEvent::ResendTick), actions(false, true, false));
    assert_eq!(a.handle(AnnouncerEvent::BleAdvertisement), actions(false, true, false));
    assert_eq!(a.handle(AnnouncerEvent::TransferFinished), actions(true, false, false));
    assert_eq!(
        a.handle(AnnouncerEvent::VisibilityChanged(Visibility::Invisible)),
        actions(false, false, true)
    );
    assert_eq!(a.handle(AnnouncerEvent::ResendTick), actions(false, false, false));
    assert_eq!(a.handle(AnnouncerEvent::TransferFinished), actions(false, false, false));
    let t = a.handle(AnnouncerEvent::VisibilityChanged(Visibility::Temporarily));
    assert!(t.register && t.restart_temporary_timer);
    let e = a.handle(AnnouncerEvent::TemporaryVisibilityElapsed);
    assert!(e.unregister && e.publish_invisible && !e.register);
    assert_eq!(a.visibility(), Visibility::Temporarily);
    assert!(!a.is_registered());
    // Still temporarily visible until the setting changes: a tick registers again.
    assert_eq!(a.handle(AnnouncerEvent::ResendTick), actions(true, false, false));
    let c = a.handle(AnnouncerEvent::Cancelled);
    assert!(c.stop && c.unregister);
    assert!(!a.is_registered());
}

#[test]
fn temporary_visibility_ends_hidden_without_a_second_withdrawal() {
    let (mut a, act) = MdnsAnnouncer::start(Visibility::Temporarily);
    assert_eq!(act, actions(true, false, false));
    let e = a.handle(AnnouncerEvent::TemporaryVisibilityElapsed);
    assert!(e.unregister && e.publish_invisible);
    assert_eq!(
        a.handle(AnnouncerEvent::VisibilityChanged(Visibility::Invisible)),
        actions(false, false, false)
    );
    assert_eq!(a.visibility(), Visibility::Invisible);
    assert!(!a.is_registered());
}

#[test]
fn a_finished_transfer_registers_again() {
    let (mut a, _) = MdnsAnnouncer::start(Visibility::Temporarily);
    assert_eq!(a.handle(AnnouncerEvent::TransferFinished), actions(true, false, false));
    assert!(a.is_registered());
}

#[test]
fn elapsed_temporary_time_is_ignored_when_not_temporary() {
    let (mut a, _) = MdnsAnnouncer::start(Visibility::Visible);
    assert_eq!(a.handle(AnnouncerEvent::TemporaryVisibilityElapsed), actions(false, false, false));
    assert!(a.is_registered());
}

#[test]
fn service_record_limits_the_endpoint_info() {
    assert!(build_service("AbCdEfGh", "host", "BQaG9zdA", 8080).is_ok());
    let long = "x".repeat(253);
    assert!(build_service("name", "host", &long, 1).is_ok());
    let too_long = "x".repeat(254);
    assert_eq!(
        build_service("name", "host", &too_long, 1).err(),
        Some(ServiceRecordError::EndpointInfoTooLong)
    );
    let wide = "é".repeat(127);
    assert!(build_service("name", "host", &wide, 1).is_err());
}

#[test]
fn built_service_carries_its_name() {
    let record = build_service("my.name", "host.local.", "info", 9000).unwrap();
    let info = record.info();
    assert_eq!(info.get_fullname(), "my\\.name._FC9F5ED42C8A._tcp.local.");
    assert_eq!(info.get_type(), "_FC9F5ED42C8A._tcp.local.");
    assert_eq!(info.get_hostname(), "host.local.");
    assert_eq!(info.get_port(), 9000);
    assert_eq!(info.get_property_val_str("n"), Some("info"));
    assert!(info.is_addr_auto());
}

#[test]
fn inbound_and_outbound_failures() {
    assert!(!accepts_inbound(Visibility::Invisible));
    assert!(accepts_inbound(Visibility::Temporarily));
    assert_eq!(
        inbound_failure_plan(State::Initial),
        InboundFailurePlan { cleanup_partial_files: false, report_disconnected: false }
    );
    assert_eq!(
        inbound_failure_plan(State::ReceivingFiles),
        InboundFailurePlan { cleanup_partial_files: true, report_disconnected: true }
    );
    assert_eq!(
        inbound_failure_plan(State::Finished),
        InboundFailurePlan { cleanup_partial_files: false, report_disconnected: false }
    );
    assert!(!outbound_failure_reports_disconnect(State::Cancelled));
    assert!(outbound_failure_reports_disconnect(State::SendingFiles));
    assert!(!schedules_mdns_resend(State::Initial));
    assert!(schedules_mdns_resend(State::Rejected));
    assert_eq!(mdns_resend_delays_ms(), [500, 2000, 4000]);
}
