//! The transfer manager's decisions: which inbound connections are served,
//! and what a failed transfer leaves behind.
use vstd::prelude::*;

use crate::endpoint::DeviceType;
use crate::mdns::Visibility;

verus! {

/// What an outbound transfer carries.
#[derive(Debug, Clone, PartialEq, Eq)]
pub enum OutboundPayload {
    Files(Vec<String>),
}

/// A request to send a payload to a device.
#[derive(Debug, Clone, PartialEq, Eq)]
pub struct SendInfo {
    pub id: String,
    pub name: String,
    pub device_type: DeviceType,
    pub addr: String,
    pub ob: OutboundPayload,
}

/// The stage a transfer has reached.
#[derive(Debug, Clone, Copy, PartialEq, Eq, Structural)]
pub enum State {
    Initial,
    WaitingForUserConsent,
    ReceivingFiles,
    SendingFiles,
    Disconnected,
    Rejected,
    Cancelled,
    Finished,
}

/// Which way a message between the library and the front end goes.
#[derive(Debug, Clone, Copy, PartialEq, Eq, Structural)]
pub enum ChannelDirection {
    FrontToLib,
    LibToFront,
}

/// What the front end asks of the library about a transfer.
#[derive(Debug, Clone, Copy, PartialEq, Eq, Structural)]
pub enum ChannelAction {
    AcceptTransfer,
    RejectTransfer,
    CancelTransfer,
}

/// Whether a transfer comes in or goes out.
#[derive(Debug, Clone, Copy, PartialEq, Eq, Structural)]
pub enum TransferType {
    Inbound,
    Outbound,
}

/// Whether an inbound connection is served: not while the device is
/// hidden.
pub fn accepts_inbound(visibility: Visibility) -> (r: bool)
    ensures
        r == (visibility != Visibility::Invisible),
{
    match visibility {
        Visibility::Invisible => false,
        _ => true,
    }
}

/// What is done when handling an inbound transfer fails.
#[derive(Debug, Clone, Copy, PartialEq, Eq, Structural)]
pub struct InboundFailurePlan {
    /// Delete the files received only in part.
    pub cleanup_partial_files: bool,
    /// Tell the front end that the connection was lost.
    pub report_disconnected: bool,
}

/// What is done when an inbound transfer in `state` fails: nothing for a
/// connection that never got past its start or a finished transfer;
/// otherwise partial files are removed and the loss is reported.
pub fn inbound_failure_plan(state: State) -> (r: InboundFailurePlan)
    ensures
        r.cleanup_partial_files == (state != State::Initial && state != State::Finished),
        r.report_disconnected == (state != State::Initial && state != State::Finished),
{
    let interrupted = match state {
        State::Initial | State::Finished => false,
        _ => true,
    };
    InboundFailurePlan { cleanup_partial_files: interrupted, report_disconnected: interrupted }
}

/// Whether a failed outbound transfer in `state` is reported to the front
/// end as a lost connection: not when it never started, nor when it had
/// finished or been cancelled.
pub fn outbound_failure_reports_disconnect(state: State) -> (r: bool)
    ensures
        r == (state != State::Initial && state != State::Finished && state != State::Cancelled),
{
    match state {
        State::Initial | State::Finished | State::Cancelled => false,
        _ => true,
    }
}

/// Whether the mDNS announcement is repeated after an inbound connection
/// ends in `state`: whenever the connection got past its start.
pub fn schedules_mdns_resend(state: State) -> (r: bool)
    ensures
        r == (state != State::Initial),
{
    match state {
        State::Initial => false,
        _ => true,
    }
}

/// The delays, in milliseconds, between the repeated announcements after
/// a transfer.
pub fn mdns_resend_delays_ms() -> (r: [u64; 3])
    ensures
        r@ == seq![500u64, 2000u64, 4000u64],
{
    let r = [500u64, 2000u64, 4000u64];
    assert(r@ =~= seq![500u64, 2000u64, 4000u64]);
    r
}

} // verus!
