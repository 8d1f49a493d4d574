//! Wi-Fi Direct support through NetworkManager: what the `nmcli`, `gdbus`
//! and `ip` tools report is read here, and the decisions taken on it.
//!
//! The tools themselves are run by the caller; every function here takes
//! what a tool printed and says, exactly, what follows from it.
use vstd::prelude::*;

use crate::text::{
    chars_of, equals_text, field, field_of, find, find_chars, lemma_find_is_first_occurrence, lines,
    lines_of, matches_at, occurs_at, opt_str_text, opt_text, replace_char, replace_chars, slice, starts_with, string_of, string_texts, texts,
    trim, trimmed,
};

verus! {

/// The service through which Wi-Fi Direct is driven.
#[derive(Debug, Clone, PartialEq, Eq, Structural)]
pub enum WifiDirectBackend {
    NetworkManager,
}

/// What the probe of the Wi-Fi Direct backend found.
#[derive(Debug, Clone, PartialEq, Eq, Structural)]
pub enum WifiDirectStatus {
    BackendMissing,
    BackendNotRunning,
    BackendQueryFailed,
    NoWifiInterface,
    WifiInterfaceUnavailable,
    NoP2pInterface,
    P2pInterfaceUnavailable,
    P2pInterfaceAvailable,
}

/// Whether Wi-Fi Direct can be used, and on which interface.
#[derive(Debug, Clone, PartialEq, Eq)]
pub struct WifiDirectCapability {
    pub backend: Option<WifiDirectBackend>,
    pub status: WifiDirectStatus,
    pub available: bool,
    pub p2p_interface: Option<String>,
}

/// A Wi-Fi Direct session as NetworkManager and the neighbour table show it.
#[derive(Debug, Clone, PartialEq, Eq)]
pub struct WifiDirectSessionInfo {
    pub p2p_interface: String,
    pub connection_name: Option<String>,
    pub ip_interface: Option<String>,
    pub ipv4_addresses: Vec<String>,
    pub peer_ipv4_candidates: Vec<String>,
    pub wifi_connected: bool,
}

/// The mathematical value of a [`WifiDirectCapability`].
pub struct CapabilityView {
    pub backend: Option<WifiDirectBackend>,
    pub status: WifiDirectStatus,
    pub available: bool,
    pub p2p_interface: Option<Seq<char>>,
}

impl View for WifiDirectCapability {
    type V = CapabilityView;

    open spec fn view(&self) -> CapabilityView {
        CapabilityView {
            backend: self.backend,
            status: self.status,
            available: self.available,
            p2p_interface: opt_text(self.p2p_interface),
        }
    }
}

/// The mathematical value of a [`WifiDirectSessionInfo`].
pub struct SessionView {
    pub p2p_interface: Seq<char>,
    pub connection_name: Option<Seq<char>>,
    pub ip_interface: Option<Seq<char>>,
    pub ipv4_addresses: Seq<Seq<char>>,
    pub peer_ipv4_candidates: Seq<Seq<char>>,
    pub wifi_connected: bool,
}

impl View for WifiDirectSessionInfo {
    type V = SessionView;

    open spec fn view(&self) -> SessionView {
        SessionView {
            p2p_interface: self.p2p_interface@,
            connection_name: opt_text(self.connection_name),
            ip_interface: opt_text(self.ip_interface),
            ipv4_addresses: string_texts(self.ipv4_addresses@),
            peer_ipv4_candidates: string_texts(self.peer_ipv4_candidates@),
            wifi_connected: self.wifi_connected,
        }
    }
}

/// No backend, and Wi-Fi Direct not available, for the reason `status`.
pub open spec fn unavailable_view(status: WifiDirectStatus) -> CapabilityView {
    CapabilityView { backend: None, status, available: false, p2p_interface: None }
}

/// NetworkManager as the backend, with what it reported.
pub open spec fn network_manager_view(
    status: WifiDirectStatus,
    available: bool,
    p2p_interface: Option<Seq<char>>,
) -> CapabilityView {
    CapabilityView {
        backend: Some(WifiDirectBackend::NetworkManager),
        status,
        available,
        p2p_interface,
    }
}

impl WifiDirectCapability {
    /// No backend can drive Wi-Fi Direct, for the reason `status`.
    pub fn unavailable(status: WifiDirectStatus) -> (r: Self)
        ensures
            r@ == unavailable_view(status),
    {
        Self { backend: None, status, available: false, p2p_interface: None }
    }

    /// NetworkManager drives Wi-Fi Direct, with what it reported.
    pub fn network_manager(
        status: WifiDirectStatus,
        available: bool,
        p2p_interface: Option<String>,
    ) -> (r: Self)
        ensures
            r@ == network_manager_view(status, available, opt_text(p2p_interface)),
    {
        Self {
            backend: Some(WifiDirectBackend::NetworkManager),
            status,
            available,
            p2p_interface,
        }
    }
}

/// The text of a command's output, without surrounding white space.
pub fn command_output(raw: &str) -> (r: String)
    ensures
        r@ == trim(raw@),
{
    let c = chars_of(raw);
    string_of(&trimmed(&c))
}

// ---------------------------------------------------------------------------
// The device list of `nmcli -t -f DEVICE,TYPE,STATE device`
// ---------------------------------------------------------------------------

/// The device name of a line of the device list.
pub open spec fn device_name(line: Seq<char>) -> Seq<char> {
    field(line, ':', 0)
}

/// The device type of a line of the device list.
pub open spec fn device_type(line: Seq<char>) -> Seq<char> {
    field(line, ':', 1)
}

/// The device state of a line of the device list.
pub open spec fn device_state(line: Seq<char>) -> Seq<char> {
    field(line, ':', 2)
}

/// A device in this state can be used.
pub open spec fn state_is_usable(state: Seq<char>) -> bool {
    !(state == "unavailable"@ || state == "unknown"@ || state == "unmanaged"@)
}

/// The line lists a Wi-Fi device.
pub open spec fn lists_wifi(line: Seq<char>) -> bool {
    device_type(line) == "wifi"@
}

/// The line lists a Wi-Fi P2P device.
pub open spec fn lists_p2p(line: Seq<char>) -> bool {
    device_type(line) == "wifi-p2p"@
}

/// The name of the last Wi-Fi P2P device that the lines list.
pub open spec fn last_p2p_name(lines: Seq<Seq<char>>) -> Option<Seq<char>>
    decreases lines.len(),
{
    if lines.len() == 0 {
        None
    } else if lists_p2p(lines.last()) {
        Some(device_name(lines.last()))
    } else {
        last_p2p_name(lines.drop_last())
    }
}

/// Some line lists a Wi-Fi device.
pub open spec fn has_wifi(lines: Seq<Seq<char>>) -> bool {
    exists|i: int| 0 <= i < lines.len() && #[trigger] lists_wifi(lines[i])
}

/// Some line lists a Wi-Fi device in a usable state.
pub open spec fn has_usable_wifi(lines: Seq<Seq<char>>) -> bool {
    exists|i: int|
        0 <= i < lines.len() && #[trigger] lists_wifi(lines[i]) && state_is_usable(
            device_state(lines[i]),
        )
}

/// Some line lists a Wi-Fi P2P device in a usable state.
pub open spec fn has_usable_p2p(lines: Seq<Seq<char>>) -> bool {
    exists|i: int|
        0 <= i < lines.len() && #[trigger] lists_p2p(lines[i]) && state_is_usable(
            device_state(lines[i]),
        )
}

/// The capability that a device list shows: the last P2P device listed is
/// the interface, usable when any P2P device is usable; without one, what
/// is missing is told apart by the Wi-Fi devices listed.
pub open spec fn capability_of_devices(lines: Seq<Seq<char>>) -> CapabilityView {
    match last_p2p_name(lines) {
        Some(name) => if has_usable_p2p(lines) {
            network_manager_view(WifiDirectStatus::P2pInterfaceAvailable, true, Some(name))
        } else {
            network_manager_view(WifiDirectStatus::P2pInterfaceUnavailable, false, Some(name))
        },
        None => if !has_wifi(lines) {
            unavailable_view(WifiDirectStatus::NoWifiInterface)
        } else if !has_usable_wifi(lines) {
            network_manager_view(WifiDirectStatus::WifiInterfaceUnavailable, false, None)
        } else {
            network_manager_view(WifiDirectStatus::NoP2pInterface, false, None)
        },
    }
}

/// What one more line adds to a scan of the device list.
proof fn lemma_device_scan_step(lines: Seq<Seq<char>>)
    requires
        lines.len() > 0,
    ensures
        has_wifi(lines) == (has_wifi(lines.drop_last()) || lists_wifi(lines.last())),
        has_usable_wifi(lines) == (has_usable_wifi(lines.drop_last()) || (lists_wifi(lines.last())
            && state_is_usable(device_state(lines.last())))),
        has_usable_p2p(lines) == (has_usable_p2p(lines.drop_last()) || (lists_p2p(lines.last())
            && state_is_usable(device_state(lines.last())))),
{
    let p = lines.drop_last();
    let n = lines.len() - 1;
    assert(lines.last() == lines[n]);
    if has_wifi(p) {
        let j = choose|j: int| 0 <= j < p.len() && #[trigger] lists_wifi(p[j]);
        assert(lines[j] == p[j]);
    }
    if has_wifi(lines) {
        let j = choose|j: int| 0 <= j < lines.len() && #[trigger] lists_wifi(lines[j]);
        if j < n {
            assert(p[j] == lines[j]);
        }
    }
    if has_usable_wifi(p) {
        let j = choose|j: int|
            0 <= j < p.len() && #[trigger] lists_wifi(p[j]) && state_is_usable(device_state(p[j]));
        assert(lines[j] == p[j]);
    }
    if has_usable_wifi(lines) {
        let j = choose|j: int|
            0 <= j < lines.len() && #[trigger] lists_wifi(lines[j]) && state_is_usable(
                device_state(lines[j]),
            );
        if j < n {
            assert(p[j] == lines[j]);
        }
    }
    if has_usable_p2p(p) {
        let j = choose|j: int|
            0 <= j < p.len() && #[trigger] lists_p2p(p[j]) && state_is_usable(device_state(p[j]));
        assert(lines[j] == p[j]);
    }
    if has_usable_p2p(lines) {
        let j = choose|j: int|
            0 <= j < lines.len() && #[trigger] lists_p2p(lines[j]) && state_is_usable(
                device_state(lines[j]),
            );
        if j < n {
            assert(p[j] == lines[j]);
        }
    }
}

/// The last P2P device of a list is there exactly when the list has a P2P
/// line.
proof fn lemma_last_p2p_name_found(lines: Seq<Seq<char>>)
    ensures
        last_p2p_name(lines) is Some <==> exists|i: int| 0 <= i < lines.len() && #[trigger] lists_p2p(
            lines[i],
        ),
    decreases lines.len(),
{
    if lines.len() > 0 {
        let d = lines.drop_last();
        lemma_last_p2p_name_found(d);
        assert(lines.last() == lines[lines.len() - 1]);
        if exists|i: int| 0 <= i < d.len() && #[trigger] lists_p2p(d[i]) {
            let i = choose|i: int| 0 <= i < d.len() && #[trigger] lists_p2p(d[i]);
            assert(lines[i] == d[i]);
        }
        if exists|i: int| 0 <= i < lines.len() && #[trigger] lists_p2p(lines[i]) {
            let i = choose|i: int| 0 <= i < lines.len() && #[trigger] lists_p2p(lines[i]);
            if i < lines.len() - 1 {
                assert(d[i] == lines[i]);
            }
        }
    }
}

/// A device list with a P2P device none of which is in a usable state
/// (each `unavailable`, `unknown` or `unmanaged`) shows NetworkManager with
/// that P2P interface, unavailable; one with a P2P device in any other
/// state shows it available.
pub proof fn lemma_p2p_usability_decides(lines: Seq<Seq<char>>)
    requires
        exists|i: int| 0 <= i < lines.len() && #[trigger] field(lines[i], ':', 1) == "wifi-p2p"@,
    ensures
        (forall|i: int|
            0 <= i < lines.len() && #[trigger] field(lines[i], ':', 1) == "wifi-p2p"@ ==> (field(
                lines[i],
                ':',
                2,
            ) == "unavailable"@ || field(lines[i], ':', 2) == "unknown"@ || field(lines[i], ':', 2)
                == "unmanaged"@)) ==> {
            let c = capability_of_devices(lines);
            &&& c.status == WifiDirectStatus::P2pInterfaceUnavailable
            &&& !c.available
            &&& c.backend == Some(WifiDirectBackend::NetworkManager)
            &&& c.p2p_interface is Some
        },
        (exists|i: int|
            0 <= i < lines.len() && #[trigger] field(lines[i], ':', 1) == "wifi-p2p"@ && !(field(
                lines[i],
                ':',
                2,
            ) == "unavailable"@ || field(lines[i], ':', 2) == "unknown"@ || field(lines[i], ':', 2)
                == "unmanaged"@)) ==> {
            let c = capability_of_devices(lines);
            &&& c.status == WifiDirectStatus::P2pInterfaceAvailable
            &&& c.available
            &&& c.backend == Some(WifiDirectBackend::NetworkManager)
            &&& c.p2p_interface is Some
        },
{
    let i0 = choose|i: int| 0 <= i < lines.len() && #[trigger] field(lines[i], ':', 1) == "wifi-p2p"@;
    assert(lists_p2p(lines[i0]));
    lemma_last_p2p_name_found(lines);
    if has_usable_p2p(lines) {
        let j = choose|j: int|
            0 <= j < lines.len() && #[trigger] lists_p2p(lines[j]) && state_is_usable(
                device_state(lines[j]),
            );
        assert(field(lines[j], ':', 1) == "wifi-p2p"@);
    }
    if exists|i: int|
        0 <= i < lines.len() && #[trigger] field(lines[i], ':', 1) == "wifi-p2p"@ && !(field(
            lines[i],
            ':',
            2,
        ) == "unavailable"@ || field(lines[i], ':', 2) == "unknown"@ || field(lines[i], ':', 2)
            == "unmanaged"@) {
        let k = choose|k: int|
            0 <= k < lines.len() && #[trigger] field(lines[k], ':', 1) == "wifi-p2p"@ && !(field(
                lines[k],
                ':',
                2,
            ) == "unavailable"@ || field(lines[k], ':', 2) == "unknown"@ || field(lines[k], ':', 2)
                == "unmanaged"@);
        assert(lists_p2p(lines[k]) && state_is_usable(device_state(lines[k])));
    }
}

/// A device list without a P2P device: with no Wi-Fi device it shows no
/// Wi-Fi interface; with Wi-Fi devices all `unavailable`, `unknown` or
/// `unmanaged` it shows the Wi-Fi interface unavailable; with a Wi-Fi
/// device in any other state it shows no P2P interface. Never available.
pub proof fn lemma_no_p2p_device(lines: Seq<Seq<char>>)
    requires
        forall|i: int| 0 <= i < lines.len() ==> #[trigger] field(lines[i], ':', 1) != "wifi-p2p"@,
    ensures
        !capability_of_devices(lines).available,
        capability_of_devices(lines).p2p_interface is None,
        (forall|i: int| 0 <= i < lines.len() ==> #[trigger] field(lines[i], ':', 1) != "wifi"@)
            ==> capability_of_devices(lines).status == WifiDirectStatus::NoWifiInterface,
        ((exists|i: int| 0 <= i < lines.len() && #[trigger] field(lines[i], ':', 1) == "wifi"@)
            && (forall|i: int|
            0 <= i < lines.len() && #[trigger] field(lines[i], ':', 1) == "wifi"@ ==> (field(
                lines[i],
                ':',
                2,
            ) == "unavailable"@ || field(lines[i], ':', 2) == "unknown"@ || field(lines[i], ':', 2)
                == "unmanaged"@))) ==> capability_of_devices(lines).status
            == WifiDirectStatus::WifiInterfaceUnavailable,
        (exists|i: int|
            0 <= i < lines.len() && #[trigger] field(lines[i], ':', 1) == "wifi"@ && !(field(
                lines[i],
                ':',
                2,
            ) == "unavailable"@ || field(lines[i], ':', 2) == "unknown"@ || field(lines[i], ':', 2)
                == "unmanaged"@)) ==> capability_of_devices(lines).status
            == WifiDirectStatus::NoP2pInterface,
{
    lemma_last_p2p_name_found(lines);
    if exists|i: int| 0 <= i < lines.len() && #[trigger] lists_p2p(lines[i]) {
        let i = choose|i: int| 0 <= i < lines.len() && #[trigger] lists_p2p(lines[i]);
        assert(field(lines[i], ':', 1) != "wifi-p2p"@);
    }
    if has_wifi(lines) {
        let j = choose|j: int| 0 <= j < lines.len() && #[trigger] lists_wifi(lines[j]);
        assert(field(lines[j], ':', 1) == "wifi"@);
    }
    if has_usable_wifi(lines) {
        let j = choose|j: int|
            0 <= j < lines.len() && #[trigger] lists_wifi(lines[j]) && state_is_usable(
                device_state(lines[j]),
            );
        assert(field(lines[j], ':', 1) == "wifi"@);
    }
    if exists|i: int| 0 <= i < lines.len() && #[trigger] field(lines[i], ':', 1) == "wifi"@ {
        let i = choose|i: int| 0 <= i < lines.len() && #[trigger] field(lines[i], ':', 1) == "wifi"@;
        assert(lists_wifi(lines[i]));
    }
    if exists|i: int|
        0 <= i < lines.len() && #[trigger] field(lines[i], ':', 1) == "wifi"@ && !(field(
            lines[i],
            ':',
            2,
        ) == "unavailable"@ || field(lines[i], ':', 2) == "unknown"@ || field(lines[i], ':', 2)
            == "unmanaged"@) {
        let k = choose|k: int|
            0 <= k < lines.len() && #[trigger] field(lines[k], ':', 1) == "wifi"@ && !(field(
                lines[k],
                ':',
                2,
            ) == "unavailable"@ || field(lines[k], ':', 2) == "unknown"@ || field(lines[k], ':', 2)
                == "unmanaged"@);
        assert(lists_wifi(lines[k]) && state_is_usable(device_state(lines[k])));
    }
}

fn usable_state(state: &Vec<char>) -> (b: bool)
    ensures
        b == state_is_usable(state@),
{
    !(equals_text(state, "unavailable") || equals_text(state, "unknown") || equals_text(
        state,
        "unmanaged",
    ))
}

/// The capability that the device list `output` shows.
pub fn capability_from_device_list(output: &str) -> (r: WifiDirectCapability)
    ensures
        r@ == capability_of_devices(lines_of(output@)),
{
    let text = chars_of(output);
    let ls = lines(&text);
    let ghost lv = texts(ls@);
    let mut wifi = false;
    let mut usable_wifi = false;
    let mut p2p_name: Option<Vec<char>> = None;
    let mut usable_p2p = false;
    let mut i: usize = 0;
    while i < ls.len()
        invariant
            i <= ls.len(),
            lv == texts(ls@),
            lv.len() == ls.len(),
            wifi == has_wifi(lv.take(i as int)),
            usable_wifi == has_usable_wifi(lv.take(i as int)),
            usable_p2p == has_usable_p2p(lv.take(i as int)),
            match p2p_name {
                Some(n) => last_p2p_name(lv.take(i as int)) == Some(n@),
                None => last_p2p_name(lv.take(i as int)) is None,
            },
        decreases ls.len() - i,
    {
        let line = &ls[i];
        let ghost prefix = lv.take(i as int);
        let ghost next = lv.take(i + 1);
        assert(next.drop_last() =~= prefix);
        assert(next.last() == line@);
        let ty = field_of(line, ':', 1);
        let state = field_of(line, ':', 2);
        proof {
            reveal_strlit("wifi");
            reveal_strlit("wifi-p2p");
            assert("wifi"@.len() == 4);
            assert("wifi-p2p"@.len() == 8);
        }
        if equals_text(&ty, "wifi") {
            wifi = true;
            assert(lists_wifi(next[i as int]));
            if usable_state(&state) {
                usable_wifi = true;
            }
            assert(!lists_p2p(line@));
        } else if equals_text(&ty, "wifi-p2p") {
            p2p_name = Some(field_of(line, ':', 0));
            assert(lists_p2p(next[i as int]));
            if usable_state(&state) {
                usable_p2p = true;
            }
        } else {
            assert(!lists_p2p(line@));
        }
        proof {
            lemma_device_scan_step(next);
        }
        i = i + 1;
    }
    assert(lv.take(ls.len() as int) =~= lv);
    match p2p_name {
        Some(name) => {
            if usable_p2p {
                WifiDirectCapability::network_manager(
                    WifiDirectStatus::P2pInterfaceAvailable,
                    true,
                    Some(string_of(&name)),
                )
            } else {
                WifiDirectCapability::network_manager(
                    WifiDirectStatus::P2pInterfaceUnavailable,
                    false,
                    Some(string_of(&name)),
                )
            }
        },
        None => {
            if !wifi {
                WifiDirectCapability::unavailable(WifiDirectStatus::NoWifiInterface)
            } else if !usable_wifi {
                WifiDirectCapability::network_manager(
                    WifiDirectStatus::WifiInterfaceUnavailable,
                    false,
                    None,
                )
            } else {
                WifiDirectCapability::network_manager(
                    WifiDirectStatus::NoP2pInterface,
                    false,
                    None,
                )
            }
        },
    }
}

// ---------------------------------------------------------------------------
// Probing NetworkManager for Wi-Fi Direct support
// ---------------------------------------------------------------------------

/// A question that the capability probe puts to `nmcli`.
#[derive(Debug, Clone, Copy, PartialEq, Eq, Structural)]
pub enum NmcliQuery {
    /// `nmcli -t -f RUNNING general`: whether NetworkManager runs.
    GeneralRunning,
    /// `nmcli -t -f DEVICE,TYPE,STATE device`: the devices it manages.
    DeviceList,
}

/// Where the capability probe stands: it needs the answer to a query, or
/// it has found the capability.
#[derive(Debug, Clone, PartialEq, Eq)]
pub enum CapabilityProbe {
    Ask(NmcliQuery),
    Found(WifiDirectCapability),
}

/// The capability that the probe finds, from whether `nmcli` is installed,
/// what it answered on whether NetworkManager runs, and what it answered
/// with the device list (`None` where the command could not be run).
/// Each answer counts only where the probe gets that far.
pub open spec fn probed_capability(
    nmcli_found: bool,
    running: Option<Seq<char>>,
    devices: Option<Seq<char>>,
) -> CapabilityView {
    if !nmcli_found {
        unavailable_view(WifiDirectStatus::BackendMissing)
    } else {
        match running {
            None => unavailable_view(WifiDirectStatus::BackendQueryFailed),
            Some(r) => if trim(r) != "running"@ {
                unavailable_view(WifiDirectStatus::BackendNotRunning)
            } else {
                match devices {
                    None => unavailable_view(WifiDirectStatus::BackendQueryFailed),
                    Some(d) => capability_of_devices(lines_of(d)),
                }
            },
        }
    }
}

/// The first step of the probe, once it is known whether `nmcli` is there.
pub fn start_capability_probe(nmcli_found: bool) -> (r: CapabilityProbe)
    ensures
        !nmcli_found ==> (r matches CapabilityProbe::Found(c) && c@ == probed_capability(
            false,
            None,
            None,
        )),
        nmcli_found ==> r == CapabilityProbe::Ask(NmcliQuery::GeneralRunning),
{
    if nmcli_found {
        CapabilityProbe::Ask(NmcliQuery::GeneralRunning)
    } else {
        CapabilityProbe::Found(WifiDirectCapability::unavailable(WifiDirectStatus::BackendMissing))
    }
}

/// The next step of the probe, given what `nmcli` answered to `query`
/// (`None` where the command could not be run).
pub fn continue_capability_probe(query: NmcliQuery, reply: Option<&str>) -> (r: CapabilityProbe)
    ensures
        query == NmcliQuery::GeneralRunning ==> match reply {
            Some(out) => if trim(out@) == "running"@ {
                r == CapabilityProbe::Ask(NmcliQuery::DeviceList)
            } else {
                r matches CapabilityProbe::Found(c) && c@ == probed_capability(
                    true,
                    Some(out@),
                    None,
                )
            },
            None => r matches CapabilityProbe::Found(c) && c@ == probed_capability(
                true,
                None,
                None,
            ),
        },
        query == NmcliQuery::DeviceList ==> (r matches CapabilityProbe::Found(c) && forall|
            running: Seq<char>,
        |
            trim(running) == "running"@ ==> c@ == #[trigger] probed_capability(
                true,
                Some(running),
                opt_str_text(reply),
            )),
{
    match query {
        NmcliQuery::GeneralRunning => match reply {
            Some(out) => {
                let t = trimmed(&chars_of(out));
                if equals_text(&t, "running") {
                    CapabilityProbe::Ask(NmcliQuery::DeviceList)
                } else {
                    CapabilityProbe::Found(
                        WifiDirectCapability::unavailable(WifiDirectStatus::BackendNotRunning),
                    )
                }
            },
            None => CapabilityProbe::Found(
                WifiDirectCapability::unavailable(WifiDirectStatus::BackendQueryFailed),
            ),
        },
        NmcliQuery::DeviceList => match reply {
            Some(out) => CapabilityProbe::Found(capability_from_device_list(out)),
            None => CapabilityProbe::Found(
                WifiDirectCapability::unavailable(WifiDirectStatus::BackendQueryFailed),
            ),
        },
    }
}

/// How far the capability lets Wi-Fi Direct be used.
#[derive(Debug, Clone, PartialEq, Eq)]
pub enum P2pReadiness {
    /// No usable P2P interface was found.
    NotAvailable,
    /// A usable P2P interface was reported without its name.
    MissingInterface,
    /// The P2P interface to use.
    Ready(String),
}

/// Whether Wi-Fi Direct can be used, and on which interface.
pub fn p2p_readiness(capability: &WifiDirectCapability) -> (r: P2pReadiness)
    ensures
        capability.status != WifiDirectStatus::P2pInterfaceAvailable ==> r
            == P2pReadiness::NotAvailable,
        capability.status == WifiDirectStatus::P2pInterfaceAvailable ==> match capability@.p2p_interface {
            Some(i) => r matches P2pReadiness::Ready(n) && n@ == i,
            None => r == P2pReadiness::MissingInterface,
        },
{
    match capability.status {
        WifiDirectStatus::P2pInterfaceAvailable => match &capability.p2p_interface {
            Some(i) => P2pReadiness::Ready(i.clone()),
            None => P2pReadiness::MissingInterface,
        },
        _ => P2pReadiness::NotAvailable,
    }
}

// ---------------------------------------------------------------------------
// `nmcli device show` and the device list
// ---------------------------------------------------------------------------

/// The D-Bus path in the output of
/// `nmcli -g GENERAL.DEVICE,GENERAL.DBUS-PATH device show <iface>`: its
/// second line, trimmed, where that is not blank.
pub open spec fn device_path_in(output: Seq<char>) -> Option<Seq<char>> {
    let ls = lines_of(output);
    if ls.len() >= 2 && trim(ls[1]).len() > 0 {
        Some(trim(ls[1]))
    } else {
        None
    }
}

/// The D-Bus path of the device, from what `nmcli` showed of it.
pub fn device_path_from_output(output: &str) -> (r: Option<String>)
    ensures
        opt_text(r) == device_path_in(output@),
{
    let ls = lines(&chars_of(output));
    if ls.len() >= 2 {
        assert(texts(ls@)[1] == ls[1]@);
        let t = trimmed(&ls[1]);
        if t.len() > 0 {
            return Some(string_of(&t));
        }
    }
    None
}

/// The device snapshot on one line: each line break becomes ` | `.
pub fn device_snapshot_line(output: &str) -> (r: String)
    ensures
        r@ == replace_char(output@, '\n', " | "@),
{
    let sep = chars_of(" | ");
    string_of(&replace_chars(&chars_of(output), '\n', &sep))
}

/// A line of the device list shows a Wi-Fi device that is connected.
pub open spec fn shows_connected_wifi(line: Seq<char>) -> bool {
    device_type(line) == "wifi"@ && device_state(line) == "connected"@
}

/// The device list shows a connected Wi-Fi device.
pub open spec fn wifi_uplink_in(output: Seq<char>) -> bool {
    exists|i: int|
        0 <= i < lines_of(output).len() && #[trigger] shows_connected_wifi(lines_of(output)[i])
}

/// Whether the device list `output` shows a connected Wi-Fi device.
pub fn wifi_uplink_from_device_list(output: &str) -> (r: bool)
    ensures
        r == wifi_uplink_in(output@),
{
    let ls = lines(&chars_of(output));
    let ghost lv = texts(ls@);
    assert(lv == lines_of(output@));
    let mut i: usize = 0;
    while i < ls.len()
        invariant
            i <= ls.len(),
            lv == texts(ls@),
            lv == lines_of(output@),
            forall|j: int| 0 <= j < i ==> !#[trigger] shows_connected_wifi(lv[j]),
        decreases ls.len() - i,
    {
        assert(lv[i as int] == ls[i as int]@);
        let ty = field_of(&ls[i], ':', 1);
        let state = field_of(&ls[i], ':', 2);
        if equals_text(&ty, "wifi") && equals_text(&state, "connected") {
            assert(shows_connected_wifi(lv[i as int]));
            return true;
        }
        i = i + 1;
    }
    false
}

// ---------------------------------------------------------------------------
// `nmcli -t -f GENERAL.CONNECTION,GENERAL.IP-IFACE,IP4.ADDRESS device show`
// ---------------------------------------------------------------------------

/// A value that `nmcli` reports as set (`--` stands for unset).
pub open spec fn is_set_value(v: Seq<char>) -> bool {
    v.len() > 0 && v != "--"@
}

/// The address on an `IP4.ADDRESS` line: the text after its first `:`,
/// trimmed, or nothing where it has none.
pub open spec fn address_on(line: Seq<char>) -> Seq<char> {
    match find(line, ":"@) {
        Some(k) => trim(line.skip(k + 1)),
        None => Seq::<char>::empty(),
    }
}

/// The connection name, IP interface and IPv4 addresses that the lines
/// report: of each single value the last one set, and every address set,
/// in order.
pub open spec fn session_fields_of(lines: Seq<Seq<char>>) -> (
    Option<Seq<char>>,
    Option<Seq<char>>,
    Seq<Seq<char>>,
)
    decreases lines.len(),
{
    if lines.len() == 0 {
        (None, None, Seq::<Seq<char>>::empty())
    } else {
        let prev = session_fields_of(lines.drop_last());
        let l = lines.last();
        if starts_with(l, "GENERAL.CONNECTION:"@) {
            let v = trim(l.skip(19));
            (
                if is_set_value(v) {
                    Some(v)
                } else {
                    prev.0
                },
                prev.1,
                prev.2,
            )
        } else if starts_with(l, "GENERAL.IP-IFACE:"@) {
            let v = trim(l.skip(17));
            (
                prev.0,
                if is_set_value(v) {
                    Some(v)
                } else {
                    prev.1
                },
                prev.2,
            )
        } else if starts_with(l, "IP4.ADDRESS"@) && is_set_value(address_on(l)) {
            (prev.0, prev.1, prev.2.push(address_on(l)))
        } else {
            prev
        }
    }
}

/// Each `GENERAL.CONNECTION:` line with a value other than empty or `--`
/// replaces the connection name read so far, and one without such a value
/// leaves it; the same holds of `GENERAL.IP-IFACE:` lines and the IP
/// interface; neither touches the other fields.
pub proof fn lemma_session_lines_override(lines: Seq<Seq<char>>, v: Seq<char>)
    ensures
        ({
            let prev = session_fields_of(lines);
            let conn = session_fields_of(lines.push("GENERAL.CONNECTION:"@ + v));
            let iface = session_fields_of(lines.push("GENERAL.IP-IFACE:"@ + v));
            let w = trim(v);
            &&& (w.len() > 0 && w != "--"@) ==> conn == (Some(w), prev.1, prev.2)
            &&& (w.len() == 0 || w == "--"@) ==> conn == prev
            &&& (w.len() > 0 && w != "--"@) ==> iface == (prev.0, Some(w), prev.2)
            &&& (w.len() == 0 || w == "--"@) ==> iface == prev
        }),
{
    reveal_strlit("GENERAL.CONNECTION:");
    reveal_strlit("GENERAL.IP-IFACE:");
    let c = "GENERAL.CONNECTION:"@ + v;
    let f = "GENERAL.IP-IFACE:"@ + v;
    assert(lines.push(c).drop_last() =~= lines);
    assert(lines.push(f).drop_last() =~= lines);
    assert(c.take(19) =~= "GENERAL.CONNECTION:"@);
    assert(c.skip(19) =~= v);
    assert(f.take(17) =~= "GENERAL.IP-IFACE:"@);
    assert(f.skip(17) =~= v);
    assert(!starts_with(f, "GENERAL.CONNECTION:"@)) by {
        if starts_with(f, "GENERAL.CONNECTION:"@) {
            assert(f.take(19)[8] == "GENERAL.CONNECTION:"@[8]);
        }
    }
}

/// An `IP4.ADDRESS[n]:` line adds its address, trimmed, after those read
/// so far, unless it is empty or `--`; it touches no other field.
pub proof fn lemma_session_address_lines(lines: Seq<Seq<char>>, a: Seq<char>)
    ensures
        ({
            let prev = session_fields_of(lines);
            let next = session_fields_of(lines.push("IP4.ADDRESS[1]:"@ + a));
            let w = trim(a);
            &&& (w.len() > 0 && w != "--"@) ==> next == (prev.0, prev.1, prev.2.push(w))
            &&& (w.len() == 0 || w == "--"@) ==> next == prev
        }),
{
    reveal_strlit("IP4.ADDRESS[1]:");
    reveal_strlit("IP4.ADDRESS");
    reveal_strlit("GENERAL.CONNECTION:");
    reveal_strlit("GENERAL.IP-IFACE:");
    reveal_strlit(":");
    let l = "IP4.ADDRESS[1]:"@ + a;
    assert(lines.push(l).drop_last() =~= lines);
    assert(l.take(11) =~= "IP4.ADDRESS"@);
    assert(!starts_with(l, "GENERAL.CONNECTION:"@)) by {
        if starts_with(l, "GENERAL.CONNECTION:"@) {
            assert(l.take(19)[0] == "GENERAL.CONNECTION:"@[0]);
        }
    }
    assert(!starts_with(l, "GENERAL.IP-IFACE:"@)) by {
        if starts_with(l, "GENERAL.IP-IFACE:"@) {
            assert(l.take(17)[0] == "GENERAL.IP-IFACE:"@[0]);
        }
    }
    lemma_find_is_first_occurrence(l, ":"@);
    assert(occurs_at(l, ":"@, 14)) by {
        assert(l.subrange(14, 15) =~= ":"@);
    }
    assert forall|j: int| 0 <= j < 14 implies !#[trigger] occurs_at(l, ":"@, j) by {
        if occurs_at(l, ":"@, j) {
            assert(l.subrange(j, j + 1)[0] == ":"@[0]);
            assert(l[j] == ':');
        }
    }
    assert(find(l, ":"@) == Some(14int));
    assert(l.skip(15) =~= a);
}

/// What `nmcli` shows of a Wi-Fi Direct session.
#[derive(Debug, Clone, PartialEq, Eq)]
pub struct SessionFields {
    pub connection_name: Option<String>,
    pub ip_interface: Option<String>,
    pub ipv4_addresses: Vec<String>,
}

fn is_set(v: &Vec<char>) -> (b: bool)
    ensures
        b == is_set_value(v@),
{
    v.len() > 0 && !equals_text(v, "--")
}

fn starts_with_text(s: &Vec<char>, p: &str) -> (b: bool)
    ensures
        b == starts_with(s@, p@),
{
    let pc = chars_of(p);
    let r = matches_at(s, &pc, 0);
    assert(r == starts_with(s@, p@)) by {
        if pc@.len() <= s@.len() {
            assert(s@.subrange(0, pc@.len() as int) =~= s@.take(pc@.len() as int));
        }
    }
    r
}

/// The session that the `nmcli device show` output `output` reports.
pub fn session_fields_from_output(output: &str) -> (r: SessionFields)
    ensures
        (opt_text(r.connection_name), opt_text(r.ip_interface), string_texts(r.ipv4_addresses@))
            == session_fields_of(lines_of(output@)),
{
    let ls = lines(&chars_of(output));
    let ghost lv = texts(ls@);
    let mut connection_name: Option<String> = None;
    let mut ip_interface: Option<String> = None;
    let mut ipv4_addresses: Vec<String> = Vec::new();
    let colon = chars_of(":");
    proof {
        reveal_strlit("GENERAL.CONNECTION:");
        reveal_strlit("GENERAL.IP-IFACE:");
        reveal_strlit(":");
        assert("GENERAL.CONNECTION:"@.len() == 19);
        assert("GENERAL.IP-IFACE:"@.len() == 17);
        assert(":"@.len() == 1);
    }
    let mut i: usize = 0;
    while i < ls.len()
        invariant
            i <= ls.len(),
            lv == texts(ls@),
            colon@ == ":"@,
            colon@.len() == 1,
            "GENERAL.CONNECTION:"@.len() == 19,
            "GENERAL.IP-IFACE:"@.len() == 17,
            (opt_text(connection_name), opt_text(ip_interface), string_texts(ipv4_addresses@))
                == session_fields_of(lv.take(i as int)),
        decreases ls.len() - i,
    {
        let line = &ls[i];
        let ghost next = lv.take(i + 1);
        assert(next.drop_last() =~= lv.take(i as int));
        assert(next.last() == line@);
        if starts_with_text(line, "GENERAL.CONNECTION:") {
            let value = trimmed(&slice(line, 19, line.len()));
            assert(line@.subrange(19, line@.len() as int) =~= line@.skip(19));
            if is_set(&value) {
                connection_name = Some(string_of(&value));
            }
        } else if starts_with_text(line, "GENERAL.IP-IFACE:") {
            let value = trimmed(&slice(line, 17, line.len()));
            assert(line@.subrange(17, line@.len() as int) =~= line@.skip(17));
            if is_set(&value) {
                ip_interface = Some(string_of(&value));
            }
        } else if starts_with_text(line, "IP4.ADDRESS") {
            let address = match find_chars(line, &colon, 0) {
                Some(k) => {
                    proof {
                        crate::gdbus::lemma_find_from_found(line@, colon@, 0);
                    }
                    let v = trimmed(&slice(line, k + 1, line.len()));
                    assert(line@.subrange(k + 1, line@.len() as int) =~= line@.skip(k + 1));
                    v
                },
                None => Vec::new(),
            };
            assert(address@ == address_on(line@));
            if is_set(&address) {
                let ghost before = string_texts(ipv4_addresses@);
                ipv4_addresses.push(string_of(&address));
                assert(string_texts(ipv4_addresses@) =~= before.push(address@));
            }
        }
        i = i + 1;
    }
    assert(lv.take(ls.len() as int) =~= lv);
    SessionFields { connection_name, ip_interface, ipv4_addresses }
}

/// A session counts as established once it has a connection, an address
/// or a peer to talk to.
pub open spec fn session_established(s: SessionView) -> bool {
    s.connection_name is Some || s.ipv4_addresses.len() > 0 || s.peer_ipv4_candidates.len() > 0
}

/// Whether the session is established.
pub fn is_session_established(session: &WifiDirectSessionInfo) -> (b: bool)
    ensures
        b == session_established(session@),
{
    session.connection_name.is_some() || session.ipv4_addresses.len() > 0
        || session.peer_ipv4_candidates.len() > 0
}

/// Where waiting for a session stands before a poll.
#[derive(Debug, Clone, Copy, PartialEq, Eq, Structural)]
pub enum WaitPhase {
    /// Within the time given: poll, and wait again unless established.
    Polling,
    /// The time is up: one last poll gives the answer.
    FinalPoll,
}

/// The phase of the wait after `elapsed_millis` of the `timeout_millis`
/// given.
pub fn wait_phase(elapsed_millis: u128, timeout_millis: u128) -> (r: WaitPhase)
    ensures
        r == (if elapsed_millis < timeout_millis {
            WaitPhase::Polling
        } else {
            WaitPhase::FinalPoll
        }),
{
    if elapsed_millis < timeout_millis {
        WaitPhase::Polling
    } else {
        WaitPhase::FinalPoll
    }
}

/// What follows a poll of the session.
#[derive(Debug, Clone, Copy, PartialEq, Eq, Structural)]
pub enum WaitDecision {
    /// The poll failed: its error is the answer.
    Fail,
    /// The session polled is the answer.
    Deliver,
    /// Wait this many milliseconds and go on.
    PollAgainAfter(u64),
}

/// What follows a poll in phase `phase` that gave `polled` (none where it
/// failed): a failure ends the wait, an established session or the last
/// poll is the answer, and otherwise the next poll comes 800 ms later.
pub fn wait_decision(phase: WaitPhase, polled: Option<&WifiDirectSessionInfo>) -> (r: WaitDecision)
    ensures
        polled is None ==> r == WaitDecision::Fail,
        polled matches Some(s) ==> r == (if phase == WaitPhase::FinalPoll || session_established(
            s@,
        ) {
            WaitDecision::Deliver
        } else {
            WaitDecision::PollAgainAfter(800)
        }),
{
    match polled {
        None => WaitDecision::Fail,
        Some(s) => match phase {
            WaitPhase::FinalPoll => WaitDecision::Deliver,
            WaitPhase::Polling => if is_session_established(s) {
                WaitDecision::Deliver
            } else {
                WaitDecision::PollAgainAfter(800)
            },
        },
    }
}

impl WifiDirectSessionInfo {
    /// The session on `p2p_interface` with what `nmcli` showed of it, the
    /// peer addresses seen on its IP interface, and whether Wi-Fi stayed
    /// connected.
    pub fn from_parts(
        p2p_interface: String,
        fields: SessionFields,
        peer_ipv4_candidates: Vec<String>,
        wifi_connected: bool,
    ) -> (r: Self)
        ensures
            r@.p2p_interface == p2p_interface@,
            r@.connection_name == opt_text(fields.connection_name),
            r@.ip_interface == opt_text(fields.ip_interface),
            r@.ipv4_addresses == string_texts(fields.ipv4_addresses@),
            r@.peer_ipv4_candidates == string_texts(peer_ipv4_candidates@),
            r@.wifi_connected == wifi_connected,
    {
        WifiDirectSessionInfo {
            p2p_interface,
            connection_name: fields.connection_name,
            ip_interface: fields.ip_interface,
            ipv4_addresses: fields.ipv4_addresses,
            peer_ipv4_candidates,
            wifi_connected,
        }
    }
}

// ---------------------------------------------------------------------------
// Activating a peer
// ---------------------------------------------------------------------------

/// Why a Wi-Fi Direct connection to a peer cannot be set up.
#[derive(Debug, Clone, PartialEq, Eq, Structural)]
pub enum ActivationError {
    /// Wi-Fi Direct is not currently available through NetworkManager.
    NotAvailable,
    /// The P2P interface was reported without its name.
    MissingInterface,
}

/// The NetworkManager connection that links to a peer.
#[derive(Debug, Clone, PartialEq, Eq)]
pub struct ActivationPlan {
    pub interface: String,
    pub connection_name: String,
}

/// `c` is an ASCII hexadecimal digit.
pub open spec fn is_hex_digit(c: char) -> bool {
    ('0' <= c && c <= '9') || ('a' <= c && c <= 'f') || ('A' <= c && c <= 'F')
}

/// `c` in ASCII lower case.
pub open spec fn ascii_lower(c: char) -> char {
    if 'A' <= c && c <= 'Z' {
        ((c as u32) + 32) as char
    } else {
        c
    }
}

/// The hexadecimal digits of `s`, in lower case and in order.
pub open spec fn lower_hex_digits(s: Seq<char>) -> Seq<char>
    decreases s.len(),
{
    if s.len() == 0 {
        Seq::<char>::empty()
    } else if is_hex_digit(s.last()) {
        lower_hex_digits(s.drop_last()).push(ascii_lower(s.last()))
    } else {
        lower_hex_digits(s.drop_last())
    }
}

/// The name of the connection to the peer with hardware address `mac`:
/// the prefix `gnomeqs-wifi-direct-` and the address's hexadecimal digits
/// in lower case.
pub open spec fn connection_name_for(mac: Seq<char>) -> Seq<char> {
    "gnomeqs-wifi-direct-"@ + lower_hex_digits(mac)
}

/// The connection name of a peer is the fixed prefix followed by lower-case
/// hexadecimal digits only, one for each hexadecimal digit of the address
/// and in its order; an address written in lower-case hexadecimal digits
/// alone is kept as it is.
pub proof fn lemma_connection_name_digits(mac: Seq<char>)
    ensures
        connection_name_for(mac).take(20) == "gnomeqs-wifi-direct-"@,
        forall|i: int|
            0 <= i < lower_hex_digits(mac).len() ==> {
                let c = #[trigger] lower_hex_digits(mac)[i];
                ('0' <= c && c <= '9') || ('a' <= c && c <= 'f')
            },
        (forall|i: int|
            0 <= i < mac.len() ==> {
                let c = #[trigger] mac[i];
                ('0' <= c && c <= '9') || ('a' <= c && c <= 'f')
            }) ==> lower_hex_digits(mac) == mac,
    decreases mac.len(),
{
    reveal_strlit("gnomeqs-wifi-direct-");
    assert("gnomeqs-wifi-direct-"@.len() == 20);
    assert(connection_name_for(mac).take(20) =~= "gnomeqs-wifi-direct-"@);
    if mac.len() > 0 {
        let d = mac.drop_last();
        lemma_connection_name_digits(d);
        let c = mac.last();
        if is_hex_digit(c) {
            assert(lower_hex_digits(mac) == lower_hex_digits(d).push(ascii_lower(c)));
            if 'A' <= c && c <= 'F' {
                assert('A' as u32 == 65 && 'F' as u32 == 70 && 'a' as u32 == 97 && 'f' as u32
                    == 102);
            }
        }
        if forall|i: int|
            0 <= i < mac.len() ==> {
                let c = #[trigger] mac[i];
                ('0' <= c && c <= '9') || ('a' <= c && c <= 'f')
            } {
            assert forall|i: int|
                0 <= i < d.len() implies {
                let c = #[trigger] d[i];
                ('0' <= c && c <= '9') || ('a' <= c && c <= 'f')
            } by {
                assert(d[i] == mac[i]);
            }
            assert(mac[mac.len() - 1] == c);
            assert(lower_hex_digits(mac) =~= mac);
        }
    }
}

/// The connection to set up for the peer `peer_mac`, where Wi-Fi Direct
/// is available.
pub fn plan_wifi_direct_activation(capability: &WifiDirectCapability, peer_mac: &str) -> (r: Result<
    ActivationPlan,
    ActivationError,
>)
    ensures
        capability.status != WifiDirectStatus::P2pInterfaceAvailable ==> r == Err::<
            ActivationPlan,
            ActivationError,
        >(ActivationError::NotAvailable),
        capability.status == WifiDirectStatus::P2pInterfaceAvailable ==> match capability@.p2p_interface {
            None => r == Err::<ActivationPlan, ActivationError>(ActivationError::MissingInterface),
            Some(i) => r matches Ok(plan) && plan.interface@ == i && plan.connection_name@
                == connection_name_for(peer_mac@),
        },
{
    let interface = match p2p_readiness(capability) {
        P2pReadiness::NotAvailable => return Err(ActivationError::NotAvailable),
        P2pReadiness::MissingInterface => return Err(ActivationError::MissingInterface),
        P2pReadiness::Ready(i) => i,
    };
    let mac = chars_of(peer_mac);
    let mut name = chars_of("gnomeqs-wifi-direct-");
    let ghost prefix = name@;
    let mut k: usize = 0;
    while k < mac.len()
        invariant
            k <= mac.len(),
            name@ == prefix + lower_hex_digits(mac@.take(k as int)),
        decreases mac.len() - k,
    {
        let c = mac[k];
        assert(mac@.take(k + 1).drop_last() =~= mac@.take(k as int));
        if ('0' <= c && c <= '9') || ('a' <= c && c <= 'f') {
            name.push(c);
        } else if 'A' <= c && c <= 'F' {
            let lower = if c == 'A' {
                'a'
            } else if c == 'B' {
                'b'
            } else if c == 'C' {
                'c'
            } else if c == 'D' {
                'd'
            } else if c == 'E' {
                'e'
            } else {
                'f'
            };
            assert(lower == ascii_lower(c));
            name.push(lower);
        }
        assert(name@ =~= prefix + lower_hex_digits(mac@.take(k + 1)));
        k = k + 1;
    }
    assert(mac@.take(mac.len() as int) =~= mac@);
    Ok(ActivationPlan { interface, connection_name: string_of(&name) })
}

/// A capability tells one consistent story: Wi-Fi Direct is available
/// exactly when a usable P2P interface was found, an interface is named
/// exactly when a P2P device was listed, and NetworkManager is named as
/// the backend exactly when it was running and reported Wi-Fi hardware.
pub open spec fn capability_coherent(c: CapabilityView) -> bool {
    &&& c.available <==> c.status == WifiDirectStatus::P2pInterfaceAvailable
    &&& c.p2p_interface is Some <==> (c.status == WifiDirectStatus::P2pInterfaceAvailable
        || c.status == WifiDirectStatus::P2pInterfaceUnavailable)
    &&& c.backend is Some <==> (c.status == WifiDirectStatus::WifiInterfaceUnavailable
        || c.status == WifiDirectStatus::NoP2pInterface || c.status
        == WifiDirectStatus::P2pInterfaceUnavailable || c.status
        == WifiDirectStatus::P2pInterfaceAvailable)
}

/// Whatever `nmcli` answers, the capability probe ends in a coherent
/// capability.
pub proof fn lemma_probed_capability_is_coherent(
    nmcli_found: bool,
    running: Option<Seq<char>>,
    devices: Option<Seq<char>>,
)
    ensures
        capability_coherent(probed_capability(nmcli_found, running, devices)),
{
}

/// How the probe ends before the device list: without `nmcli` the backend
/// is missing; when `nmcli` cannot be run, or its device list cannot be,
/// the query failed; when NetworkManager does not answer `running` (white
/// space aside), it is not running. None of these is available or names
/// a backend.
pub proof fn lemma_probe_outcomes(running: Option<Seq<char>>, devices: Option<Seq<char>>)
    ensures
        probed_capability(false, running, devices).status == WifiDirectStatus::BackendMissing,
        probed_capability(true, None, devices).status == WifiDirectStatus::BackendQueryFailed,
        (running matches Some(r) && trim(r) != "running"@) ==> probed_capability(
            true,
            running,
            devices,
        ).status == WifiDirectStatus::BackendNotRunning,
        (running matches Some(r) && trim(r) == "running"@) ==> probed_capability(
            true,
            running,
            None,
        ).status == WifiDirectStatus::BackendQueryFailed,
        !probed_capability(false, running, devices).available,
        probed_capability(false, running, devices).backend is None,
        probed_capability(true, None, devices).backend is None,
{
}

/// A session counts as established as soon as it has a connection name,
/// an address of its own, or an address of the peer; a session with none
/// of them is not.
pub proof fn lemma_session_established_when(s: SessionView)
    ensures
        s.connection_name is Some ==> session_established(s),
        s.ipv4_addresses.len() > 0 ==> session_established(s),
        s.peer_ipv4_candidates.len() > 0 ==> session_established(s),
        (s.connection_name is None && s.ipv4_addresses.len() == 0 && s.peer_ipv4_candidates.len()
            == 0) ==> !session_established(s),
{
}

} // verus!
