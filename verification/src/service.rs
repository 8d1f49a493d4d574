//! The mDNS service record of this device: the `mdns_sd::ServiceInfo`
//! handed to the daemon, together with the plain values it was made from.
use vstd::prelude::*;

use mdns_sd::{IfKind, ServiceInfo};

verus! {

#[verifier::external_type_specification]
#[verifier::external_body]
pub struct ExServiceInfo(mdns_sd::ServiceInfo);

#[verifier::external_type_specification]
#[verifier::external_body]
pub struct ExMdnsError(mdns_sd::Error);

/// What a service record holds.
pub struct ServiceRecordView {
    /// The service type with its domain.
    pub ty_domain: Seq<char>,
    pub instance_name: Seq<char>,
    pub host_name: Seq<char>,
    pub port: u16,
    /// The single TXT property, `key=value`.
    pub txt_key: Seq<char>,
    pub txt_value: Seq<char>,
    /// The daemon follows the host's addresses as they change.
    pub addr_auto: bool,
    /// The service is announced on IPv4 interfaces only.
    pub ipv4_only: bool,
}

/// A service record: the `ServiceInfo` to register, and the values it was
/// made from. Only the functions of this module make one, each from the
/// same values that it hands to `mdns_sd`.
pub struct ServiceRecord {
    info: ServiceInfo,
    ty_domain: String,
    instance_name: String,
    host_name: String,
    port: u16,
    txt_key: String,
    txt_value: String,
    addr_auto: bool,
    ipv4_only: bool,
}

impl View for ServiceRecord {
    type V = ServiceRecordView;

    closed spec fn view(&self) -> ServiceRecordView {
        ServiceRecordView {
            ty_domain: self.ty_domain@,
            instance_name: self.instance_name@,
            host_name: self.host_name@,
            port: self.port,
            txt_key: self.txt_key@,
            txt_value: self.txt_value@,
            addr_auto: self.addr_auto,
            ipv4_only: self.ipv4_only,
        }
    }
}

impl ServiceRecord {
    /// The `ServiceInfo` to hand to the mDNS daemon.
    pub fn info(&self) -> &ServiceInfo {
        &self.info
    }
}

/// `mdns_sd::ServiceInfo::new` with the single TXT property `key=value`
/// and the addresses left to be found (`ip` empty). Its source accepts
/// such a record exactly when the key is ASCII without `=` and the
/// property, `key=value`, takes at most 255 bytes; the record it makes
/// does not follow the host's addresses and is meant for every interface.
/// The result carries the values the `ServiceInfo` was made from.
#[verifier::external_body]
pub(crate) fn new_service_record(
    ty_domain: &str,
    instance_name: &str,
    host_name: &str,
    ip: &str,
    port: u16,
    key: &str,
    value: &str,
) -> (r: Result<ServiceRecord, mdns_sd::Error>)
    requires
        ip@.len() == 0,
    ensures
        r is Ok <==> (vstd::utf8::is_ascii_chars(key@) && !key@.contains('=')
            && vstd::utf8::encode_utf8(key@).len() + vstd::utf8::encode_utf8(value@).len() + 1 <= 255),
        r matches Ok(s) ==> s@ == (ServiceRecordView {
            ty_domain: ty_domain@,
            instance_name: instance_name@,
            host_name: host_name@,
            port,
            txt_key: key@,
            txt_value: value@,
            addr_auto: false,
            ipv4_only: false,
        }),
{
    match ServiceInfo::new(ty_domain, instance_name, host_name, ip, port, &[(key, value)][..]) {
        Ok(info) => Ok(ServiceRecord {
            info,
            ty_domain: ty_domain.to_string(),
            instance_name: instance_name.to_string(),
            host_name: host_name.to_string(),
            port,
            txt_key: key.to_string(),
            txt_value: value.to_string(),
            addr_auto: false,
            ipv4_only: false,
        }),
        Err(e) => Err(e),
    }
}

/// `mdns_sd::ServiceInfo::enable_addr_auto`: the daemon then follows the
/// host's addresses as they change; nothing else of the record changes.
#[verifier::external_body]
pub(crate) fn enable_addr_auto(record: ServiceRecord) -> (r: ServiceRecord)
    ensures
        r@ == (ServiceRecordView { addr_auto: true, ..record@ }),
{
    ServiceRecord { info: record.info.enable_addr_auto(), addr_auto: true, ..record }
}

/// `mdns_sd::ServiceInfo::set_interfaces` with the IPv4 interfaces only:
/// the record is announced, and its addresses found, on IPv4 interfaces
/// only; nothing else of the record changes.
#[verifier::external_body]
pub(crate) fn restrict_to_ipv4(record: &mut ServiceRecord)
    ensures
        final(record)@ == (ServiceRecordView { ipv4_only: true, ..old(record)@ }),
{
    record.info.set_interfaces(vec![IfKind::IPv4]);
    record.ipv4_only = true;
}

} // verus!
