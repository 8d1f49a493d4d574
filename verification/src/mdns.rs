//! Announcing this device over mDNS: the visibility setting, the policy of
//! when the service is registered, re-announced and withdrawn, and the
//! service record itself.
use vstd::prelude::*;

use crate::service::{enable_addr_auto, new_service_record, restrict_to_ipv4, ServiceRecord, ServiceRecordView};

verus! {

/// Who may see this device.
#[derive(Debug, Clone, Copy, PartialEq, Eq, Structural)]
pub enum Visibility {
    Visible,
    Invisible,
    Temporarily,
}

/// The number that stands for a visibility in the settings.
pub open spec fn visibility_number(v: Visibility) -> u64 {
    match v {
        Visibility::Visible => 0,
        Visibility::Invisible => 1,
        Visibility::Temporarily => 2,
    }
}

impl Visibility {
    /// The visibility that the number `value` (0, 1 or 2) stands for.
    pub fn from_raw_value(value: u64) -> (r: Self)
        requires
            value <= 2,
        ensures
            visibility_number(r) == value,
    {
        if value == 0 {
            Visibility::Visible
        } else if value == 1 {
            Visibility::Invisible
        } else {
            Visibility::Temporarily
        }
    }

    /// The number that stands for this visibility.
    pub fn raw_value(&self) -> (r: u64)
        ensures
            r == visibility_number(*self),
    {
        match self {
            Visibility::Visible => 0,
            Visibility::Invisible => 1,
            Visibility::Temporarily => 2,
        }
    }
}

/// The visibility that a press on the visibility row chooses, from the
/// number stored in the settings: a visible device (0) becomes hidden, and
/// any other, hidden or visible for a while, becomes visible.
pub fn toggled_visibility(stored: i32) -> (r: Visibility)
    ensures
        r == (if stored == 0 {
            Visibility::Invisible
        } else {
            Visibility::Visible
        }),
{
    if stored == 0 {
        Visibility::Invisible
    } else {
        Visibility::Visible
    }
}

/// Each visibility has its own number, and that number gives it back.
pub proof fn lemma_visibility_number_round_trip(v: Visibility, w: Visibility)
    ensures
        visibility_number(v) <= 2,
        visibility_number(v) == visibility_number(w) ==> v == w,
{
}

/// The numbers the settings store: 0 for visible, 1 for hidden, 2 for
/// visible for a while.
pub proof fn lemma_visibility_numbers()
    ensures
        visibility_number(Visibility::Visible) == 0,
        visibility_number(Visibility::Invisible) == 1,
        visibility_number(Visibility::Temporarily) == 2,
{
}

/// Something the mDNS announcer reacts to.
#[derive(Debug, Clone, Copy, PartialEq, Eq, Structural)]
pub enum AnnouncerEvent {
    /// The visibility setting changed.
    VisibilityChanged(Visibility),
    /// A nearby device asked over Bluetooth LE for devices to show up.
    BleAdvertisement,
    /// The periodic re-announcement is due.
    ResendTick,
    /// A transfer ended; the service is announced again.
    TransferFinished,
    /// The time of temporary visibility has run out.
    TemporaryVisibilityElapsed,
    /// The service is shutting down.
    Cancelled,
}

/// What the announcer asks of the mDNS daemon, in this order.
#[derive(Debug, Clone, Copy, PartialEq, Eq, Structural)]
pub struct AnnouncerActions {
    /// Withdraw the service record.
    pub unregister: bool,
    /// Register the service record (announcing it).
    pub register: bool,
    /// Announce the registered service record again.
    pub resend: bool,
    /// Restart the countdown of temporary visibility.
    pub restart_temporary_timer: bool,
    /// Set the visibility setting to [`Visibility::Invisible`].
    pub publish_invisible: bool,
    /// Stop the announcer.
    pub stop: bool,
}

/// Nothing to do.
pub open spec fn no_actions() -> AnnouncerActions {
    AnnouncerActions {
        unregister: false,
        register: false,
        resend: false,
        restart_temporary_timer: false,
        publish_invisible: false,
        stop: false,
    }
}

/// The state of the announcer: the visibility it acts on, and whether the
/// service is registered.
#[derive(Debug, Clone, Copy, PartialEq, Eq, Structural)]
pub struct AnnouncerState {
    pub visibility: Visibility,
    pub registered: bool,
}

/// The announcer's invariant: a visible device is announced, and a hidden
/// one never is.
pub open spec fn announcer_consistent(s: AnnouncerState) -> bool {
    &&& s.visibility == Visibility::Visible ==> s.registered
    &&& s.registered ==> s.visibility != Visibility::Invisible
}

/// Register where not registered yet, else announce again.
pub open spec fn announce(s: AnnouncerState) -> (AnnouncerState, AnnouncerActions) {
    (
        AnnouncerState { visibility: s.visibility, registered: true },
        AnnouncerActions { register: !s.registered, resend: s.registered, ..no_actions() },
    )
}

/// The announcer's step: the state after `event` and what it asks for.
pub open spec fn announcer_step(s: AnnouncerState, event: AnnouncerEvent) -> (
    AnnouncerState,
    AnnouncerActions,
) {
    match event {
        AnnouncerEvent::VisibilityChanged(v) => match v {
            Visibility::Visible => (
                AnnouncerState { visibility: v, registered: true },
                AnnouncerActions { register: !s.registered, ..no_actions() },
            ),
            Visibility::Invisible => (
                AnnouncerState { visibility: v, registered: false },
                AnnouncerActions { unregister: s.registered, ..no_actions() },
            ),
            Visibility::Temporarily => (
                AnnouncerState { visibility: v, registered: true },
                AnnouncerActions {
                    register: !s.registered,
                    restart_temporary_timer: true,
                    ..no_actions()
                },
            ),
        },
        AnnouncerEvent::BleAdvertisement | AnnouncerEvent::ResendTick => {
            if s.visibility == Visibility::Invisible {
                (s, no_actions())
            } else {
                announce(s)
            }
        },
        AnnouncerEvent::TransferFinished => {
            if s.visibility == Visibility::Invisible {
                (s, no_actions())
            } else {
                (
                    AnnouncerState { visibility: s.visibility, registered: true },
                    AnnouncerActions { register: true, ..no_actions() },
                )
            }
        },
        AnnouncerEvent::TemporaryVisibilityElapsed => {
            if s.visibility != Visibility::Temporarily {
                (s, no_actions())
            } else {
                (
                    AnnouncerState { visibility: s.visibility, registered: false },
                    AnnouncerActions {
                        unregister: s.registered,
                        publish_invisible: true,
                        ..no_actions()
                    },
                )
            }
        },
        AnnouncerEvent::Cancelled => (
            AnnouncerState { visibility: s.visibility, registered: false },
            AnnouncerActions { unregister: s.registered, stop: true, ..no_actions() },
        ),
    }
}

/// The mDNS announcer: decides, event by event, what the daemon is asked.
pub struct MdnsAnnouncer {
    state: AnnouncerState,
}

impl View for MdnsAnnouncer {
    type V = AnnouncerState;

    closed spec fn view(&self) -> AnnouncerState {
        self.state
    }
}

fn nothing() -> (r: AnnouncerActions)
    ensures
        r == no_actions(),
{
    AnnouncerActions {
        unregister: false,
        register: false,
        resend: false,
        restart_temporary_timer: false,
        publish_invisible: false,
        stop: false,
    }
}

impl MdnsAnnouncer {
    /// The announcer at start-up with the visibility `visibility`: the
    /// service is registered unless the device is hidden.
    pub fn start(visibility: Visibility) -> (r: (Self, AnnouncerActions))
        ensures
            r.0@ == (AnnouncerState {
                visibility,
                registered: visibility != Visibility::Invisible,
            }),
            r.1 == (AnnouncerActions {
                register: visibility != Visibility::Invisible,
                ..no_actions()
            }),
            announcer_consistent(r.0@),
    {
        let registered = match visibility {
            Visibility::Invisible => false,
            _ => true,
        };
        let mut actions = nothing();
        actions.register = registered;
        (MdnsAnnouncer { state: AnnouncerState { visibility, registered } }, actions)
    }

    /// The visibility the announcer acts on.
    pub fn visibility(&self) -> (r: Visibility)
        ensures
            r == self@.visibility,
    {
        self.state.visibility
    }

    /// Whether the service is registered.
    pub fn is_registered(&self) -> (r: bool)
        ensures
            r == self@.registered,
    {
        self.state.registered
    }

    /// Takes in `event` and says what the daemon is to do.
    pub fn handle(&mut self, event: AnnouncerEvent) -> (r: AnnouncerActions)
        ensures
            (final(self)@, r) == announcer_step(old(self)@, event),
    {
        let s = self.state;
        let mut a = nothing();
        let hidden = match s.visibility {
            Visibility::Invisible => true,
            _ => false,
        };
        match event {
            AnnouncerEvent::VisibilityChanged(v) => {
                match v {
                    Visibility::Visible => {
                        a.register = !s.registered;
                        self.state = AnnouncerState { visibility: v, registered: true };
                    },
                    Visibility::Invisible => {
                        a.unregister = s.registered;
                        self.state = AnnouncerState { visibility: v, registered: false };
                    },
                    Visibility::Temporarily => {
                        a.register = !s.registered;
                        a.restart_temporary_timer = true;
                        self.state = AnnouncerState { visibility: v, registered: true };
                    },
                }
            },
            AnnouncerEvent::BleAdvertisement | AnnouncerEvent::ResendTick => {
                if !hidden {
                    a.register = !s.registered;
                    a.resend = s.registered;
                    self.state.registered = true;
                }
            },
            AnnouncerEvent::TransferFinished => {
                if !hidden {
                    a.register = true;
                    self.state.registered = true;
                }
            },
            AnnouncerEvent::TemporaryVisibilityElapsed => {
                match s.visibility {
                    Visibility::Temporarily => {
                        a.unregister = s.registered;
                        a.publish_invisible = true;
                        self.state.registered = false;
                    },
                    _ => {},
                }
            },
            AnnouncerEvent::Cancelled => {
                a.unregister = s.registered;
                a.stop = true;
                self.state.registered = false;
            },
        }
        a
    }
}

/// Every step short of shutting down keeps the announcer consistent: a
/// visible device stays announced, and a hidden device is never announced.
pub proof fn lemma_announcer_stays_consistent(s: AnnouncerState, event: AnnouncerEvent)
    requires
        announcer_consistent(s),
        !(event is Cancelled),
    ensures
        announcer_consistent(announcer_step(s, event).0),
{
}

/// The announcer's state after it started with the visibility `start` and
/// took in `events`, in order.
pub open spec fn announcer_after(start: Visibility, events: Seq<AnnouncerEvent>) -> AnnouncerState
    decreases events.len(),
{
    if events.len() == 0 {
        AnnouncerState { visibility: start, registered: start != Visibility::Invisible }
    } else {
        announcer_step(announcer_after(start, events.drop_last()), events.last()).0
    }
}

/// As long as the service runs, whatever events came: a visible device is
/// registered, and a hidden one is not.
pub proof fn lemma_running_announcer_is_consistent(start: Visibility, events: Seq<AnnouncerEvent>)
    requires
        forall|i: int| 0 <= i < events.len() ==> !(#[trigger] events[i] is Cancelled),
    ensures
        announcer_consistent(announcer_after(start, events)),
        announcer_after(start, events).visibility == Visibility::Visible ==> announcer_after(
            start,
            events,
        ).registered,
        announcer_after(start, events).visibility == Visibility::Invisible ==> !announcer_after(
            start,
            events,
        ).registered,
    decreases events.len(),
{
    if events.len() > 0 {
        let d = events.drop_last();
        assert forall|i: int| 0 <= i < d.len() implies !(#[trigger] d[i] is Cancelled) by {
            assert(d[i] == events[i]);
        }
        lemma_running_announcer_is_consistent(start, d);
        assert(events.last() == events[events.len() - 1]);
        lemma_announcer_stays_consistent(announcer_after(start, d), events.last());
    }
}

/// What the announcer asks of the daemon keeps the daemon's registration
/// where the announcer believes it is: after each step the service is
/// registered exactly when it was and was not withdrawn, or was
/// registered by the step. A withdrawal is asked only of a registered
/// service and an announcement again only of a registered one; turning
/// visible or temporarily visible registers a service that was not
/// registered; turning hidden withdraws one that was.
pub proof fn lemma_actions_track_registration(s: AnnouncerState, e: AnnouncerEvent)
    ensures
        ({
            let (t, a) = announcer_step(s, e);
            &&& t.registered == ((s.registered && !a.unregister) || a.register)
            &&& a.unregister ==> s.registered
            &&& a.resend ==> s.registered && t.registered
            &&& !(a.register && a.unregister)
            &&& (e == AnnouncerEvent::VisibilityChanged(Visibility::Visible) || e
                == AnnouncerEvent::VisibilityChanged(Visibility::Temporarily)) ==> (a.register
                == !s.registered && t.registered)
            &&& e == AnnouncerEvent::VisibilityChanged(Visibility::Invisible) ==> (a.unregister
                == s.registered && !t.registered && !a.register)
            &&& e is VisibilityChanged ==> t.visibility == e->VisibilityChanged_0
        }),
{
}

/// While the device is hidden, nothing but a change of visibility makes
/// the announcer register or announce the service.
pub proof fn lemma_hidden_device_is_never_announced(s: AnnouncerState, event: AnnouncerEvent)
    requires
        s.visibility == Visibility::Invisible,
        !(event is VisibilityChanged),
    ensures
        !announcer_step(s, event).1.register,
        !announcer_step(s, event).1.resend,
        announcer_step(s, event).0.visibility == Visibility::Invisible,
{
}

/// After a transfer, a device that can be seen is announced afresh and
/// stays registered, so that a device browsing right then finds it.
pub proof fn lemma_transfer_end_reannounces(s: AnnouncerState)
    requires
        s.visibility != Visibility::Invisible,
    ensures
        announcer_step(s, AnnouncerEvent::TransferFinished).1.register,
        !announcer_step(s, AnnouncerEvent::TransferFinished).1.unregister,
        announcer_step(s, AnnouncerEvent::TransferFinished).0 == (AnnouncerState {
            visibility: s.visibility,
            registered: true,
        }),
{
}

/// When temporary visibility runs out, the service is withdrawn and the
/// setting turns to hidden; the change of setting that follows then asks
/// nothing more of the daemon.
pub proof fn lemma_temporary_visibility_ends_hidden(s: AnnouncerState)
    requires
        s.visibility == Visibility::Temporarily,
    ensures
        ({
            let (s1, a1) = announcer_step(s, AnnouncerEvent::TemporaryVisibilityElapsed);
            let (s2, a2) = announcer_step(
                s1,
                AnnouncerEvent::VisibilityChanged(Visibility::Invisible),
            );
            &&& a1.publish_invisible
            &&& a1.unregister == s.registered
            &&& !s1.registered
            &&& s2 == (AnnouncerState { visibility: Visibility::Invisible, registered: false })
            &&& a2 == no_actions()
        }),
{
}

/// Once cancelled, the announcer stops with the service withdrawn.
pub proof fn lemma_cancel_withdraws_service(s: AnnouncerState)
    ensures
        announcer_step(s, AnnouncerEvent::Cancelled).1.stop,
        !announcer_step(s, AnnouncerEvent::Cancelled).0.registered,
        announcer_step(s, AnnouncerEvent::Cancelled).1.unregister == s.registered,
{
}

// ---------------------------------------------------------------------------
// The service record
// ---------------------------------------------------------------------------

/// The mDNS service type of Quick Share.
pub const SERVICE_TYPE: &'static str = "_FC9F5ED42C8A._tcp.local.";

/// Why the service record could not be built.
#[derive(Debug, Clone, Copy, PartialEq, Eq, Structural)]
pub enum ServiceRecordError {
    /// The endpoint information does not fit in one TXT property.
    EndpointInfoTooLong,
}

/// The record that announces this device: the instance `service_name` of
/// the Quick Share service on `hostname` at `service_port`, with the
/// endpoint information as TXT property `n`, following the host's IPv4
/// addresses. It is refused exactly when that information takes more than
/// 253 bytes.
pub fn build_service(
    service_name: &str,
    hostname: &str,
    endpoint_info: &str,
    service_port: u16,
) -> (r: Result<ServiceRecord, ServiceRecordError>)
    ensures
        r is Ok <==> vstd::utf8::encode_utf8(endpoint_info@).len() <= 253,
        r matches Err(e) ==> e == ServiceRecordError::EndpointInfoTooLong,
        r matches Ok(s) ==> s@ == (ServiceRecordView {
            ty_domain: SERVICE_TYPE@,
            instance_name: service_name@,
            host_name: hostname@,
            port: service_port,
            txt_key: "n"@,
            txt_value: endpoint_info@,
            addr_auto: true,
            ipv4_only: true,
        }),
{
    proof {
        reveal_strlit("n");
        reveal_strlit("");
        assert("n"@.len() == 1);
        assert("n"@[0] == 'n');
        assert("n"@ =~= seq!['n']);
        vstd::utf8::is_ascii_chars_encode_utf8("n"@);
        assert(!"n"@.contains('='));
    }
    match new_service_record(SERVICE_TYPE, service_name, hostname, "", service_port, "n", endpoint_info) {
        Ok(record) => {
            let mut record = enable_addr_auto(record);
            restrict_to_ipv4(&mut record);
            Ok(record)
        },
        Err(_) => Err(ServiceRecordError::EndpointInfoTooLong),
    }
}

} // verus!
