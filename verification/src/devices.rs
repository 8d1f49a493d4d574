//! The devices of the send view: how each is shown, and what choosing one
//! with files selected sends.
use vstd::prelude::*;

use crate::endpoint::{DeviceType, EndpointInfo, EndpointTransport};
use crate::ids::{IdSet, TextMap};
use crate::frontend::{
    endpoint_addr, endpoint_addr_of, endpoint_is_reachable, handoff_addr, known_mdns_endpoint,
    lowercase_text,
    normalize_device_name, port_text, session_matches_pending, timestamped_id, KnownMdnsEndpoint,
    WifiDirectSendRequest, WifiDirectSessionReady,
};
use crate::manager::{OutboundPayload, SendInfo};
use crate::numbers::decimal_text;
use crate::text::{chars_of, copy_strings, push_all, string_of, string_texts, trim};
use crate::transfers::{device_icon_name, history_allows_retry, retryable_text, TransferList, TransferListChange, TransferListView};
use crate::wifi_direct::WifiDirectSessionInfo;

verus! {

fn same_kind(t: &DeviceType) -> (r: DeviceType)
    ensures
        r == *t,
{
    match t {
        DeviceType::Phone => DeviceType::Phone,
        DeviceType::Tablet => DeviceType::Tablet,
        DeviceType::Laptop => DeviceType::Laptop,
        DeviceType::Unknown => DeviceType::Unknown,
    }
}

/// How a device is shown in the send view.
#[derive(Debug, Clone, PartialEq, Eq)]
pub struct DeviceTileLook {
    pub icon: &'static str,
    /// The device's name, or its id where it has none.
    pub title: String,
    /// The way the device is reached.
    pub transport: &'static str,
    /// The line under the title.
    pub status: String,
    /// The style of the transport badge.
    pub transport_class: &'static str,
    /// Whether the tile can be chosen.
    pub interactive: bool,
}

/// The kind of a device, taken as unknown where it was not told.
pub open spec fn kind_of(t: Option<DeviceType>) -> DeviceType {
    match t {
        Some(k) => k,
        None => DeviceType::Unknown,
    }
}

/// An optional text, or `default` where there is none.
pub open spec fn text_or(o: Option<Seq<char>>, default: Seq<char>) -> Seq<char> {
    match o {
        Some(t) => t,
        None => default,
    }
}

/// The icon of a device of kind `t`.
pub open spec fn icon_of_kind(t: DeviceType) -> Seq<char> {
    match t {
        DeviceType::Phone => "phone-symbolic"@,
        DeviceType::Tablet => "tablet-symbolic"@,
        _ => "computer-symbolic"@,
    }
}

fn kind_copy(t: &Option<DeviceType>) -> (r: DeviceType)
    ensures
        r == kind_of(*t),
{
    match t {
        Some(DeviceType::Phone) => DeviceType::Phone,
        Some(DeviceType::Tablet) => DeviceType::Tablet,
        Some(DeviceType::Laptop) => DeviceType::Laptop,
        _ => DeviceType::Unknown,
    }
}

/// How the device `info` is shown: a Wi-Fi Direct peer is marked as
/// experimental, a device on the network shows its address (or that it is
/// ready); only a device that can be reached can be chosen.
pub fn device_tile_look(info: &EndpointInfo) -> (r: DeviceTileLook)
    ensures
        r.icon@ == icon_of_kind(kind_of(info.rtype)),
        r.title@ == text_or(info@.name, info@.id),
        info.transport == Some(EndpointTransport::WifiDirectPeer) ==> {
            &&& r.transport@ == "Wi-Fi Direct"@
            &&& r.status@ == "Experimental"@
            &&& r.transport_class@ == "transport-wifi-direct"@
        },
        info.transport != Some(EndpointTransport::WifiDirectPeer) ==> {
            &&& r.transport@ == "Wi-Fi"@
            &&& r.status@ == text_or(info@.ip, "Ready"@)
            &&& r.transport_class@ == "transport-wifi"@
        },
        r.interactive == (info.transport == Some(EndpointTransport::WifiDirectPeer) || (info.ip is Some
            && info.port is Some)),
{
    let kind = kind_copy(&info.rtype);
    let icon = device_icon_name(&kind);
    let title = match &info.name {
        Some(n) => n.clone(),
        None => info.id.clone(),
    };
    let interactive = endpoint_is_reachable(info);
    match info.transport {
        Some(EndpointTransport::WifiDirectPeer) => DeviceTileLook {
            icon,
            title,
            transport: "Wi-Fi Direct",
            status: "Experimental".to_owned(),
            transport_class: "transport-wifi-direct",
            interactive,
        },
        _ => DeviceTileLook {
            icon,
            title,
            transport: "Wi-Fi",
            status: match &info.ip {
                Some(ip) => ip.clone(),
                None => "Ready".to_owned(),
            },
            transport_class: "transport-wifi",
            interactive,
        },
    }
}

/// What choosing a device with files selected does.
#[derive(Debug, Clone, PartialEq, Eq)]
pub enum SendPlan {
    /// No file is selected: nothing happens.
    NoFiles,
    /// A Wi-Fi Direct peer whose MAC address is unknown: nothing is sent.
    MissingPeerMac,
    /// Start a Wi-Fi Direct session with the peer and hand it the files.
    WifiDirect(WifiDirectSendRequest),
    /// Send the files over the local network.
    Direct(SendInfo),
}

/// What choosing the device `info` with the files `files` selected does,
/// `micros` being the time in microseconds that makes the transfer's id
/// unique.
pub fn plan_send(info: &EndpointInfo, files: Vec<String>, micros: u128) -> (r: SendPlan)
    ensures
        files.len() == 0 ==> r == SendPlan::NoFiles,
        files.len() > 0 && info.transport == Some(EndpointTransport::WifiDirectPeer) ==> match r {
            SendPlan::MissingPeerMac => info.wifi_direct_peer_mac is None,
            SendPlan::WifiDirect(req) => {
                &&& info@.wifi_direct_peer_mac == Some(req.peer_mac@)
                &&& req.peer_id@ == info.id@
                &&& req.peer_name@ == text_or(info@.name, info@.id)
                &&& req.files == files
            },
            _ => false,
        },
        files.len() > 0 && info.transport != Some(EndpointTransport::WifiDirectPeer) ==> match r {
            SendPlan::Direct(send) => {
                &&& send.id@ == info.id@ + "-"@ + decimal_text(micros as nat)
                &&& send.name@ == text_or(info@.name, Seq::empty())
                &&& send.device_type == kind_of(info.rtype)
                &&& send.addr@ == endpoint_addr_of(info@.ip, info@.port)
                &&& send.ob == OutboundPayload::Files(files)
            },
            _ => false,
        },
{
    if files.len() == 0 {
        return SendPlan::NoFiles;
    }
    match info.transport {
        Some(EndpointTransport::WifiDirectPeer) => {
            let peer_mac = match &info.wifi_direct_peer_mac {
                Some(mac) => mac.clone(),
                None => return SendPlan::MissingPeerMac,
            };
            let peer_name = match &info.name {
                Some(n) => n.clone(),
                None => info.id.clone(),
            };
            SendPlan::WifiDirect(
                WifiDirectSendRequest { peer_id: info.id.clone(), peer_name, peer_mac, files },
            )
        },
        _ => {
            let name = match &info.name {
                Some(n) => n.clone(),
                None => String::new(),
            };
            SendPlan::Direct(
                SendInfo {
                    id: timestamped_id(info.id.as_str(), micros),
                    name,
                    device_type: kind_copy(&info.rtype),
                    addr: endpoint_addr(info),
                    ob: OutboundPayload::Files(files),
                },
            )
        },
    }
}

// ---------------------------------------------------------------------------
// A send that waits for a Wi-Fi Direct peer
// ---------------------------------------------------------------------------

/// Files to send to a Wi-Fi Direct peer once it can be reached.
#[derive(Debug, Clone, PartialEq, Eq)]
pub struct PendingWifiDirectSend {
    pub peer_id: String,
    pub peer_name: String,
    pub files: Vec<String>,
}

/// A device name as names are compared: without surrounding white space,
/// in lower case.
pub open spec fn name_key(name: Seq<char>) -> Seq<char> {
    lowercase_text(trim(name))
}

/// The payload of `files`, copied.
pub open spec fn carries_files(ob: OutboundPayload, files: Seq<String>) -> bool {
    match ob {
        OutboundPayload::Files(fs) => string_texts(fs@) == string_texts(files),
    }
}

/// The pending send goes to `info` when `info` is a device announced over
/// mDNS with an address and a port whose name is the peer's: then the
/// files are sent to it over the local network, under an id made unique
/// by `micros`.
pub fn auto_send_pending(info: &EndpointInfo, pending: &PendingWifiDirectSend, micros: u128) -> (r:
    Option<SendInfo>)
    ensures
        r is Some <==> (info.transport == Some(EndpointTransport::MdnsTcp) && info.ip is Some
            && info.port is Some && name_key(text_or(info@.name, Seq::empty())) == name_key(
            pending.peer_name@,
        )),
        r matches Some(send) ==> {
            &&& send.id@ == info.id@ + "-"@ + decimal_text(micros as nat)
            &&& send.name@ == text_or(info@.name, Seq::empty())
            &&& send.device_type == kind_of(info.rtype)
            &&& send.addr@ == endpoint_addr_of(info@.ip, info@.port)
            &&& carries_files(send.ob, pending.files@)
        },
{
    match info.transport {
        Some(EndpointTransport::MdnsTcp) => {},
        _ => return None,
    }
    if info.ip.is_none() || info.port.is_none() {
        return None;
    }
    let name = match &info.name {
        Some(n) => n.clone(),
        None => String::new(),
    };
    let a = normalize_device_name(name.as_str());
    let b = normalize_device_name(pending.peer_name.as_str());
    if !(a == b) {
        return None;
    }
    Some(
        SendInfo {
            id: timestamped_id(info.id.as_str(), micros),
            name,
            device_type: kind_copy(&info.rtype),
            addr: endpoint_addr(info),
            ob: OutboundPayload::Files(copy_strings(&pending.files)),
        },
    )
}

/// What is done when a Wi-Fi Direct session is ready while a send waits.
#[derive(Debug, Clone, PartialEq, Eq)]
pub enum HandoffDecision {
    /// The session is with another peer than the one the send waits for.
    OtherPeer,
    /// No address of the peer on the direct link is known yet.
    NoPeerAddress,
    /// No port is known on which the peer listens.
    NoPort,
    /// Send the files to the peer over the direct link.
    Send(SendInfo),
}

/// `r` is what is done when the session of `ready` is ready while
/// `pending` waits, with `cached` the device of the peer's name remembered
/// from mDNS: the files go to the peer's first address on the direct link,
/// at the remembered port or else at the configured port, under an id made
/// unique by `micros`.
pub open spec fn handoff_of(
    pending: PendingWifiDirectSend,
    ready: WifiDirectSessionReady,
    cached: Option<KnownMdnsEndpoint>,
    configured_port: Option<u16>,
    micros: u128,
    r: HandoffDecision,
) -> bool {
    if !(pending.peer_id@ == ready.peer_id@ || name_key(pending.peer_name@) == name_key(
        ready.peer_name@,
    )) {
        r == HandoffDecision::OtherPeer
    } else {
        let candidates = ready.session@.peer_ipv4_candidates;
        let stem = "wifi-direct-"@ + ready.peer_id@ + "-"@ + decimal_text(micros as nat);
        if candidates.len() == 0 {
            r == HandoffDecision::NoPeerAddress
        } else {
            match cached {
                Some(known) => r matches HandoffDecision::Send(send) && send.id@ == stem
                    && send.name@ == known.name@ && send.device_type == known.device_type
                    && send.addr@ == candidates[0] + ":"@ + known.port@ && carries_files(
                    send.ob,
                    pending.files@,
                ),
                None => match configured_port {
                    Some(port) => r matches HandoffDecision::Send(send) && send.id@ == stem
                        && send.name@ == ready.peer_name@ && send.device_type == DeviceType::Unknown
                        && send.addr@ == candidates[0] + ":"@ + decimal_text(port as nat)
                        && carries_files(send.ob, pending.files@),
                    None => r == HandoffDecision::NoPort,
                },
            }
        }
    }
}

/// What is done when the session of `ready` is ready while `pending`
/// waits, `cached` being the device of the peer's name remembered from its
/// mDNS announcement (see [`handoff_of`]).
pub fn handoff_decision(
    pending: &PendingWifiDirectSend,
    ready: &WifiDirectSessionReady,
    cached: Option<&KnownMdnsEndpoint>,
    configured_port: Option<u16>,
    micros: u128,
) -> (r: HandoffDecision)
    ensures
        handoff_of(
            *pending,
            *ready,
            match cached {
                Some(k) => Some(*k),
                None => None,
            },
            configured_port,
            micros,
            r,
        ),
{
    if !session_matches_pending(
        pending.peer_id.as_str(),
        pending.peer_name.as_str(),
        ready.peer_id.as_str(),
        ready.peer_name.as_str(),
    ) {
        return HandoffDecision::OtherPeer;
    }
    if ready.session.peer_ipv4_candidates.len() == 0 {
        return HandoffDecision::NoPeerAddress;
    }
    let (name, port, device_type) = match cached {
        Some(known) => (known.name.clone(), known.port.clone(), same_kind(&known.device_type)),
        None => match configured_port {
            Some(p) => (ready.peer_name.clone(), port_text(p), DeviceType::Unknown),
            None => return HandoffDecision::NoPort,
        },
    };
    let addr = match handoff_addr(&ready.session.peer_ipv4_candidates, port.as_str()) {
        Some(a) => a,
        None => return HandoffDecision::NoPeerAddress,
    };
    let mut stem = chars_of("wifi-direct-");
    push_all(&mut stem, &chars_of(ready.peer_id.as_str()));
    let stem = string_of(&stem);
    HandoffDecision::Send(
        SendInfo {
            id: timestamped_id(stem.as_str(), micros),
            name,
            device_type,
            addr,
            ob: OutboundPayload::Files(copy_strings(&pending.files)),
        },
    )
}

// ---------------------------------------------------------------------------
// Trying a send again
// ---------------------------------------------------------------------------

/// What is kept of a send so that it can be tried again.
#[derive(Debug, Clone, PartialEq, Eq)]
pub struct RetryRequest {
    pub name: String,
    pub device_type: DeviceType,
    pub addr: String,
    pub files: Vec<String>,
}

/// `request` keeps the device, the address and the files of `send`.
pub open spec fn kept_for_retry(send: SendInfo, request: RetryRequest) -> bool {
    &&& request.name@ == send.name@
    &&& request.device_type == send.device_type
    &&& request.addr@ == send.addr@
    &&& carries_files(send.ob, request.files@)
}

/// Where a send is tried again from.
#[derive(Debug, Clone, Copy, PartialEq, Eq, Structural)]
pub enum RetryOrigin {
    /// The retry button of the transfer's row.
    Row,
    /// The retry button of the transfer's history entry.
    History,
}

/// The word that marks the id of a send tried again from `origin`.
pub open spec fn retry_mark(origin: RetryOrigin) -> Seq<char> {
    match origin {
        RetryOrigin::Row => "-retry-"@,
        RetryOrigin::History => "-history-"@,
    }
}

/// `retried` tries `request` again from `origin`, under an id made of the
/// address, the mark of `origin` and `micros`.
pub open spec fn retries(request: RetryRequest, origin: RetryOrigin, micros: u128, retried: SendInfo) -> bool {
    &&& retried.id@ == request.addr@ + retry_mark(origin) + decimal_text(micros as nat)
    &&& retried.name@ == request.name@
    &&& retried.device_type == request.device_type
    &&& retried.addr@ == request.addr@
    &&& carries_files(retried.ob, request.files@)
}

/// What is kept of `send` to try it again.
pub fn retry_request_of(send: &SendInfo) -> (r: RetryRequest)
    ensures
        kept_for_retry(*send, r),
{
    let files = match &send.ob {
        OutboundPayload::Files(fs) => copy_strings(fs),
    };
    RetryRequest {
        name: send.name.clone(),
        device_type: same_kind(&send.device_type),
        addr: send.addr.clone(),
        files,
    }
}

/// The send that tries `request` again from `origin`, its id made unique
/// by `micros`.
pub fn retry_send(request: &RetryRequest, origin: RetryOrigin, micros: u128) -> (r: SendInfo)
    ensures
        retries(*request, origin, micros, r),
{
    let mut stem = chars_of(request.addr.as_str());
    match origin {
        RetryOrigin::Row => push_all(&mut stem, &chars_of("-retry")),
        RetryOrigin::History => push_all(&mut stem, &chars_of("-history")),
    }
    let stem = string_of(&stem);
    let id = timestamped_id(stem.as_str(), micros);
    assert(id@ =~= request.addr@ + retry_mark(origin) + decimal_text(micros as nat)) by {
        reveal_strlit("-retry");
        reveal_strlit("-retry-");
        reveal_strlit("-history");
        reveal_strlit("-history-");
        reveal_strlit("-");
        assert("-retry"@ + "-"@ =~= "-retry-"@);
        assert("-history"@ + "-"@ =~= "-history-"@);
    }
    SendInfo {
        id,
        name: request.name.clone(),
        device_type: same_kind(&request.device_type),
        addr: request.addr.clone(),
        ob: OutboundPayload::Files(copy_strings(&request.files)),
    }
}

/// Trying a send again sends the same files to the same device, at the
/// same address, as the send that was kept.
pub proof fn lemma_retry_repeats_the_send(
    send: SendInfo,
    request: RetryRequest,
    origin: RetryOrigin,
    micros: u128,
    retried: SendInfo,
)
    requires
        kept_for_retry(send, request),
        retries(request, origin, micros, retried),
    ensures
        retried.name@ == send.name@,
        retried.device_type == send.device_type,
        retried.addr@ == send.addr@,
        match (retried.ob, send.ob) {
            (OutboundPayload::Files(a), OutboundPayload::Files(b)) => string_texts(a@) == string_texts(b@),
        },
{
}

// ---------------------------------------------------------------------------
// The devices shown
// ---------------------------------------------------------------------------

/// What an endpoint update did to the devices shown.
#[derive(Debug, Clone, Copy, PartialEq, Eq, Structural)]
pub enum DeviceListChange {
    /// The device left and its tile was removed.
    Removed,
    /// A tile was added for a new device.
    Added,
    /// Nothing changed.
    Unchanged,
}

/// The devices shown in the send view, by id.
pub struct DeviceList {
    shown: IdSet,
}

impl View for DeviceList {
    type V = Set<Seq<char>>;

    closed spec fn view(&self) -> Set<Seq<char>> {
        self.shown@
    }
}

/// The update `info` tells that its device left.
pub open spec fn departs(info: EndpointInfo) -> bool {
    info.present == Some(false)
}

/// The update `info` describes a device that can be shown.
pub open spec fn reachable(info: EndpointInfo) -> bool {
    info.transport == Some(EndpointTransport::WifiDirectPeer) || (info.ip is Some && info.port is Some)
}

/// An update tells that its device left exactly when it says the device
/// is not present; a device can be shown when it is a Wi-Fi Direct peer, or
/// when both its address and its port are known.
pub proof fn lemma_departs_and_reachable(info: EndpointInfo)
    ensures
        departs(info) <==> info.present == Some(false),
        info.present is None ==> !departs(info),
        info.transport == Some(EndpointTransport::WifiDirectPeer) ==> reachable(info),
        info.transport != Some(EndpointTransport::WifiDirectPeer) ==> (reachable(info) <==> (
        info.ip is Some && info.port is Some)),
{
}

impl DeviceList {
    /// The list is in order.
    pub closed spec fn well_formed(&self) -> bool {
        self.shown.well_formed()
    }

    /// No device shown.
    pub fn new() -> (r: Self)
        ensures
            r.well_formed(),
            r@ == Set::<Seq<char>>::empty(),
    {
        DeviceList { shown: IdSet::new() }
    }

    /// Whether no device is shown (the placeholder is).
    pub fn is_empty(&self) -> (r: bool)
        ensures
            r == (self@ == Set::<Seq<char>>::empty()),
    {
        self.shown.is_empty()
    }

    /// Takes in the endpoint update `info`: a device that left is removed,
    /// a device that can be reached is added unless it is shown already,
    /// and any other update changes nothing.
    pub fn update(&mut self, info: &EndpointInfo) -> (change: DeviceListChange)
        requires
            old(self).well_formed(),
        ensures
            final(self).well_formed(),
            departs(*info) ==> final(self)@ == old(self)@.remove(info.id@) && change == (if old(
                self,
            )@.contains(info.id@) {
                DeviceListChange::Removed
            } else {
                DeviceListChange::Unchanged
            }),
            !departs(*info) && !reachable(*info) ==> final(self)@ == old(self)@ && change
                == DeviceListChange::Unchanged,
            !departs(*info) && reachable(*info) ==> final(self)@ == old(self)@.insert(info.id@)
                && change == (if old(self)@.contains(info.id@) {
                DeviceListChange::Unchanged
            } else {
                DeviceListChange::Added
            }),
    {
        if matches!(info.present, Some(false)) {
            if self.shown.remove(info.id.as_str()) {
                DeviceListChange::Removed
            } else {
                DeviceListChange::Unchanged
            }
        } else if !endpoint_is_reachable(info) {
            DeviceListChange::Unchanged
        } else if self.shown.insert(info.id.as_str()) {
            DeviceListChange::Added
        } else {
            DeviceListChange::Unchanged
        }
    }
}

// ---------------------------------------------------------------------------
// The files selected for sending
// ---------------------------------------------------------------------------

/// The files selected for sending, in the order they were added.
#[derive(Debug)]
pub struct SelectedFiles {
    pub files: Vec<String>,
}

/// How the file selection is shown.
#[derive(Debug, Clone, Copy, PartialEq, Eq)]
pub struct SelectionLook {
    /// The hint shown in the drop zone while nothing is selected.
    pub hint: Option<&'static str>,
    pub clear_visible: bool,
    /// The list of the selected files.
    pub list_visible: bool,
}

impl SelectedFiles {
    /// Nothing selected.
    pub fn new() -> (r: Self)
        ensures
            r.files@.len() == 0,
    {
        SelectedFiles { files: Vec::new() }
    }

    /// The files chosen in the file dialog replace the selection, unless
    /// none was chosen.
    pub fn pick(&mut self, paths: Vec<String>)
        ensures
            paths.len() > 0 ==> final(self).files == paths,
            paths.len() == 0 ==> final(self).files == old(self).files,
    {
        if paths.len() > 0 {
            self.files = paths;
        }
    }

    /// A file dropped on the view is added to the selection.
    pub fn drop_in(&mut self, path: String)
        ensures
            final(self).files@ == old(self).files@.push(path),
    {
        self.files.push(path);
    }

    /// The file at `index` is taken out of the selection, where there is
    /// one.
    pub fn remove(&mut self, index: usize)
        ensures
            index < old(self).files@.len() ==> final(self).files@ == old(self).files@.remove(
                index as int,
            ),
            index >= old(self).files@.len() ==> final(self).files == old(self).files,
    {
        if index < self.files.len() {
            self.files.remove(index);
        }
    }

    /// The selection is emptied.
    pub fn clear(&mut self)
        ensures
            final(self).files@.len() == 0,
    {
        self.files = Vec::new();
    }

    /// How the selection is shown: the hint while it is empty, the list and
    /// the clear button while it is not.
    pub fn look(&self) -> (r: SelectionLook)
        ensures
            self.files@.len() == 0 ==> (r.hint matches Some(h) && h@ == "Drop files here or use Select"@),
            self.files@.len() > 0 ==> r.hint is None,
            r.clear_visible == (self.files@.len() > 0),
            r.list_visible == (self.files@.len() > 0),
    {
        let empty = self.files.len() == 0;
        SelectionLook {
            hint: if empty {
                Some("Drop files here or use Select")
            } else {
                None
            },
            clear_visible: !empty,
            list_visible: !empty,
        }
    }
}

// ---------------------------------------------------------------------------
// Running discovery
// ---------------------------------------------------------------------------

/// A request to the library about discovery.
#[derive(Debug, Clone, Copy, PartialEq, Eq, Structural)]
pub enum DiscoveryCommand {
    Start,
    Stop,
}

/// Whether the send view has discovery running.
#[derive(Debug)]
pub struct DiscoverySwitch {
    pub active: bool,
}

/// The command that brings discovery from `active` to `run`, if any.
pub open spec fn command_between(active: bool, run: bool) -> Option<DiscoveryCommand> {
    if active == run {
        None
    } else if run {
        Some(DiscoveryCommand::Start)
    } else {
        Some(DiscoveryCommand::Stop)
    }
}

impl DiscoverySwitch {
    /// Discovery not running.
    pub fn new() -> (r: Self)
        ensures
            !r.active,
    {
        DiscoverySwitch { active: false }
    }

    /// The command to send so that discovery runs (`run`) or stops; none
    /// where it already does.
    pub fn command_for(&self, run: bool) -> (r: Option<DiscoveryCommand>)
        ensures
            r == command_between(self.active, run),
    {
        if self.active == run {
            None
        } else if run {
            Some(DiscoveryCommand::Start)
        } else {
            Some(DiscoveryCommand::Stop)
        }
    }

    /// The command `command` reached the library.
    pub fn delivered(&mut self, command: DiscoveryCommand)
        ensures
            final(self).active == (command == DiscoveryCommand::Start),
    {
        self.active = match command {
            DiscoveryCommand::Start => true,
            DiscoveryCommand::Stop => false,
        };
    }
}

/// Once the command asked for has reached the library, discovery is in
/// the state asked for, and asking again sends nothing.
pub proof fn lemma_discovery_commands_are_sent_once(active: bool, run: bool)
    ensures
        command_between(active, run) matches Some(c) ==> {
            let now = c == DiscoveryCommand::Start;
            now == run && command_between(now, run) is None
        },
        command_between(active, run) is None ==> active == run,
{
}

// ---------------------------------------------------------------------------
// What the send view keeps
// ---------------------------------------------------------------------------

/// Two retry requests keep the same device, address and files.
pub open spec fn same_retry(a: RetryRequest, b: RetryRequest) -> bool {
    &&& a.name@ == b.name@
    &&& a.device_type == b.device_type
    &&& a.addr@ == b.addr@
    &&& string_texts(a.files@) == string_texts(b.files@)
}

fn copy_retry(q: &RetryRequest) -> (r: RetryRequest)
    ensures
        same_retry(r, *q),
{
    RetryRequest {
        name: q.name.clone(),
        device_type: same_kind(&q.device_type),
        addr: q.addr.clone(),
        files: copy_strings(&q.files),
    }
}

/// What is remembered of a device announced over mDNS, as values.
pub open spec fn known_fields(k: KnownMdnsEndpoint) -> (Seq<char>, Seq<char>, DeviceType) {
    (k.name@, k.port@, k.device_type)
}

/// What the send view keeps: the devices shown, the devices announced over
/// mDNS by their name as names are compared, what each send made is
/// remembered by (to try it again), and the transfers shown.
pub struct SendViewState {
    pub devices: DeviceList,
    pub known: TextMap<KnownMdnsEndpoint>,
    pub sent: TextMap<RetryRequest>,
    pub transfers: TransferList,
}

impl SendViewState {
    /// The device list and the transfer list are in order.
    pub open spec fn well_formed(&self) -> bool {
        self.devices.well_formed() && self.transfers.well_formed()
    }

    /// Nothing shown, known or sent; the history button shown when there
    /// is history.
    pub fn new(has_history: bool) -> (r: Self)
        ensures
            r.well_formed(),
            r.devices@ == Set::<Seq<char>>::empty(),
            r.known@ == Map::<Seq<char>, KnownMdnsEndpoint>::empty(),
            r.sent@ == Map::<Seq<char>, RetryRequest>::empty(),
            r.transfers@ == (TransferListView { shown: Set::<Seq<char>>::empty(), history_shown: has_history }),
    {
        SendViewState {
            devices: DeviceList::new(),
            known: TextMap::new(),
            sent: TextMap::new(),
            transfers: TransferList::new(has_history),
        }
    }

    /// Takes in the endpoint update `info`. The devices shown change as
    /// [`DeviceList::update`] says. A device announced over mDNS with a
    /// name, an address and a port is remembered under its name, as names
    /// are compared; a device that left, or one that cannot be reached,
    /// leaves what is remembered as it was.
    pub fn update_endpoint(&mut self, info: &EndpointInfo) -> (change: DeviceListChange)
        requires
            old(self).well_formed(),
        ensures
            final(self).well_formed(),
            departs(*info) ==> final(self).devices@ == old(self).devices@.remove(info.id@) && change
                == (if old(self).devices@.contains(info.id@) {
                DeviceListChange::Removed
            } else {
                DeviceListChange::Unchanged
            }),
            !departs(*info) && !reachable(*info) ==> final(self).devices@ == old(self).devices@
                && change == DeviceListChange::Unchanged,
            !departs(*info) && reachable(*info) ==> final(self).devices@ == old(
                self,
            ).devices@.insert(info.id@) && change == (if old(self).devices@.contains(info.id@) {
                DeviceListChange::Unchanged
            } else {
                DeviceListChange::Added
            }),
            (!departs(*info) && reachable(*info) && info.transport == Some(EndpointTransport::MdnsTcp)
                && info.name is Some && info.port is Some) ==> {
                let key = name_key(info.name->0@);
                &&& final(self).known@ == old(self).known@.insert(key, final(self).known@[key])
                &&& known_fields(final(self).known@[key]) == (info.name->0@, info.port->0@, kind_of(
                    info.rtype,
                ))
            },
            !(!departs(*info) && reachable(*info) && info.transport == Some(
                EndpointTransport::MdnsTcp,
            ) && info.name is Some && info.port is Some) ==> final(self).known@ == old(self).known@,
            final(self).sent@ == old(self).sent@,
            final(self).transfers@ == old(self).transfers@,
    {
        let departing = matches!(info.present, Some(false));
        if !departing && endpoint_is_reachable(info) {
            if let Some((key, known)) = known_mdns_endpoint(info) {
                self.known.insert(key, known);
            }
        }
        self.devices.update(info)
    }

    /// Remembers the send `send`, so that it can be tried again.
    pub fn record_send(&mut self, send: &SendInfo)
        ensures
            final(self).sent@ == old(self).sent@.insert(send.id@, final(self).sent@[send.id@]),
            kept_for_retry(*send, final(self).sent@[send.id@]),
            final(self).devices == old(self).devices,
            final(self).known@ == old(self).known@,
            final(self).transfers@ == old(self).transfers@,
            final(self).well_formed() == old(self).well_formed(),
    {
        self.sent.insert(send.id.clone(), retry_request_of(send));
    }

    /// Takes in a message about the transfer `id` (see
    /// [`TransferList::take_message`]); a row made for it can be retried
    /// when a send was remembered under that id, with what was remembered.
    pub fn take_message(&mut self, id: &str, has_state: bool, has_meta: bool) -> (r: (
        TransferListChange,
        Option<RetryRequest>,
    ))
        requires
            old(self).well_formed(),
        ensures
            final(self).well_formed(),
            !(has_state && has_meta) ==> final(self).transfers@ == old(self).transfers@ && r.0
                == TransferListChange::Ignored,
            has_state && has_meta ==> final(self).transfers@ == (TransferListView {
                shown: old(self).transfers@.shown.insert(id@),
                history_shown: old(self).transfers@.history_shown,
            }) && r.0 == (if old(self).transfers@.shown.contains(id@) {
                TransferListChange::Updated
            } else {
                TransferListChange::Added
            }),
            r.1 is Some <==> (r.0 == TransferListChange::Added && old(self).sent@.contains_key(id@)),
            r.1 matches Some(q) ==> same_retry(q, old(self).sent@[id@]),
            final(self).devices@ == old(self).devices@,
            final(self).known@ == old(self).known@,
            final(self).sent@ == old(self).sent@,
    {
        let change = self.transfers.take_message(id, has_state, has_meta);
        let retry = match change {
            TransferListChange::Added => match self.sent.get(id) {
                Some(q) => Some(copy_retry(q)),
                None => None,
            },
            _ => None,
        };
        (change, retry)
    }

    /// The user cleared the row of the transfer `id`, whose subtitle was
    /// `subtitle`: the row moves to the history (see
    /// [`TransferList::clear`]), and its history entry can be retried when
    /// the transfer went wrong and its send was remembered.
    pub fn clear(&mut self, id: &str, subtitle: &str) -> (r: (bool, Option<RetryRequest>))
        requires
            old(self).well_formed(),
        ensures
            final(self).well_formed(),
            r.0 == old(self).transfers@.shown.contains(id@),
            final(self).transfers@ == (TransferListView {
                shown: old(self).transfers@.shown.remove(id@),
                history_shown: old(self).transfers@.history_shown || r.0,
            }),
            r.1 is Some <==> (r.0 && retryable_text(subtitle@) && old(self).sent@.contains_key(id@)),
            r.1 matches Some(q) ==> same_retry(q, old(self).sent@[id@]),
            final(self).devices@ == old(self).devices@,
            final(self).known@ == old(self).known@,
            final(self).sent@ == old(self).sent@,
    {
        let moved = self.transfers.clear(id);
        let retry = if moved && history_allows_retry(subtitle) {
            match self.sent.get(id) {
                Some(q) => Some(copy_retry(q)),
                None => None,
            }
        } else {
            None
        };
        (moved, retry)
    }

    /// What is done when the session of `ready` is ready while `pending`
    /// waits: [`handoff_of`], with the device remembered under the peer's
    /// name.
    pub fn handoff(
        &self,
        pending: &PendingWifiDirectSend,
        ready: &WifiDirectSessionReady,
        configured_port: Option<u16>,
        micros: u128,
    ) -> (r: HandoffDecision)
        ensures
            handoff_of(
                *pending,
                *ready,
                if self.known@.contains_key(name_key(ready.peer_name@)) {
                    Some(self.known@[name_key(ready.peer_name@)])
                } else {
                    None
                },
                configured_port,
                micros,
                r,
            ),
    {
        let key = normalize_device_name(ready.peer_name.as_str());
        let cached = self.known.get(key.as_str());
        handoff_decision(pending, ready, cached, configured_port, micros)
    }
}

} // verus!
