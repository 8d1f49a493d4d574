//! Devices found nearby, as the discovery reports them to the front end.
use vstd::prelude::*;

use crate::text::{copy_opt_string, opt_text};

verus! {

/// The kind of device at the other end of a transfer.
#[derive(Debug, Clone, PartialEq, Eq, Structural)]
pub enum DeviceType {
    Phone,
    Tablet,
    Laptop,
    Unknown,
}

/// How a device was found.
#[derive(Debug, Clone, PartialEq, Eq, Structural)]
pub enum EndpointTransport {
    MdnsTcp,
    WifiDirectPeer,
}

/// A device found nearby, or the news that it left (`present == Some(false)`).
#[derive(Debug, Clone, PartialEq, Eq)]
pub struct EndpointInfo {
    pub fullname: String,
    pub id: String,
    pub name: Option<String>,
    pub ip: Option<String>,
    pub port: Option<String>,
    pub rtype: Option<DeviceType>,
    pub present: Option<bool>,
    pub transport: Option<EndpointTransport>,
    pub wifi_direct_peer_path: Option<String>,
    pub wifi_direct_peer_mac: Option<String>,
}

/// The mathematical value of an [`EndpointInfo`].
pub struct EndpointView {
    pub fullname: Seq<char>,
    pub id: Seq<char>,
    pub name: Option<Seq<char>>,
    pub ip: Option<Seq<char>>,
    pub port: Option<Seq<char>>,
    pub rtype: Option<DeviceType>,
    pub present: Option<bool>,
    pub transport: Option<EndpointTransport>,
    pub wifi_direct_peer_path: Option<Seq<char>>,
    pub wifi_direct_peer_mac: Option<Seq<char>>,
}

impl View for EndpointInfo {
    type V = EndpointView;

    open spec fn view(&self) -> EndpointView {
        EndpointView {
            fullname: self.fullname@,
            id: self.id@,
            name: opt_text(self.name),
            ip: opt_text(self.ip),
            port: opt_text(self.port),
            rtype: self.rtype,
            present: self.present,
            transport: self.transport,
            wifi_direct_peer_path: opt_text(self.wifi_direct_peer_path),
            wifi_direct_peer_mac: opt_text(self.wifi_direct_peer_mac),
        }
    }
}

/// The news that the device `id` has left: every other field is empty.
pub open spec fn departed_view(id: Seq<char>) -> EndpointView {
    EndpointView {
        fullname: Seq::<char>::empty(),
        id,
        name: None,
        ip: None,
        port: None,
        rtype: None,
        present: Some(false),
        transport: None,
        wifi_direct_peer_path: None,
        wifi_direct_peer_mac: None,
    }
}

/// An endpoint with every field empty.
pub open spec fn empty_view() -> EndpointView {
    EndpointView {
        fullname: Seq::<char>::empty(),
        id: Seq::<char>::empty(),
        name: None,
        ip: None,
        port: None,
        rtype: None,
        present: None,
        transport: None,
        wifi_direct_peer_path: None,
        wifi_direct_peer_mac: None,
    }
}

fn copy_device_type(t: &Option<DeviceType>) -> (r: Option<DeviceType>)
    ensures
        r == *t,
{
    match t {
        Some(DeviceType::Phone) => Some(DeviceType::Phone),
        Some(DeviceType::Tablet) => Some(DeviceType::Tablet),
        Some(DeviceType::Laptop) => Some(DeviceType::Laptop),
        Some(DeviceType::Unknown) => Some(DeviceType::Unknown),
        None => None,
    }
}

fn copy_transport(t: &Option<EndpointTransport>) -> (r: Option<EndpointTransport>)
    ensures
        r == *t,
{
    match t {
        Some(EndpointTransport::MdnsTcp) => Some(EndpointTransport::MdnsTcp),
        Some(EndpointTransport::WifiDirectPeer) => Some(EndpointTransport::WifiDirectPeer),
        None => None,
    }
}

impl Default for EndpointInfo {
    fn default() -> (r: Self)
        ensures
            r@ == empty_view(),
    {
        EndpointInfo {
            fullname: String::new(),
            id: String::new(),
            name: None,
            ip: None,
            port: None,
            rtype: None,
            present: None,
            transport: None,
            wifi_direct_peer_path: None,
            wifi_direct_peer_mac: None,
        }
    }
}

impl EndpointInfo {
    /// The news that the device `id` has left.
    pub fn departed(id: String) -> (r: Self)
        ensures
            r@ == departed_view(id@),
    {
        EndpointInfo {
            fullname: String::new(),
            id,
            name: None,
            ip: None,
            port: None,
            rtype: None,
            present: Some(false),
            transport: None,
            wifi_direct_peer_path: None,
            wifi_direct_peer_mac: None,
        }
    }

    /// A copy of this endpoint.
    pub fn duplicate(&self) -> (r: Self)
        ensures
            r@ == self@,
    {
        EndpointInfo {
            fullname: self.fullname.clone(),
            id: self.id.clone(),
            name: copy_opt_string(&self.name),
            ip: copy_opt_string(&self.ip),
            port: copy_opt_string(&self.port),
            rtype: copy_device_type(&self.rtype),
            present: self.present,
            transport: copy_transport(&self.transport),
            wifi_direct_peer_path: copy_opt_string(&self.wifi_direct_peer_path),
            wifi_direct_peer_mac: copy_opt_string(&self.wifi_direct_peer_mac),
        }
    }
}

} // verus!
