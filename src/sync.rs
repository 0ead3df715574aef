//! The periodic time-sync routine as a state machine: the caller performs
//! each action (wait, resolve, bind, send and receive, sleep) and hands the
//! outcome back as an event; every decision is taken here.
use vstd::prelude::*;
use crate::ntp::{
    ntp_request, reference_timestamp_of, request_bytes, response_accepted, unix_time_of,
    unix_time_from_response, NTP_MIN_RESPONSE_LEN, NTP_PORT, NTP_SANITY_BOUND,
};

verus! {

/// Host name of the time server.
pub const TIME_SERVER_HOST: &'static str = "time.google.com";

/// Seconds between two sync cycles.
pub const NTP_UPDATE_INTERVAL_SECS: u64 = 3600;

/// An IPv4 address as its four octets, most significant first.
#[derive(Clone, Copy, Debug, PartialEq, Eq, Structural)]
pub struct Ipv4Address {
    pub a: u8,
    pub b: u8,
    pub c: u8,
    pub d: u8,
}

/// The address used when name resolution fails or finds nothing.
pub open spec fn fallback_server() -> Ipv4Address {
    Ipv4Address { a: 216, b: 239, c: 35, d: 0 }
}

/// Where the routine stands within a cycle.
#[derive(Clone, Copy, Debug, PartialEq, Eq, Structural)]
pub enum SyncState {
    /// Between cycles: before the first one, or asleep after one.
    Idle,
    /// Waiting for the network configuration to come up.
    AwaitingConfig,
    /// Resolving the time server's name.
    Resolving,
    /// Opening a UDP socket; the server has been chosen.
    Binding { server: Ipv4Address },
    /// The request is out; waiting for the one reply.
    Exchanging,
}

/// The outcome of the last action, as the caller observed it.
#[derive(Debug)]
pub enum SyncEvent {
    /// A new cycle begins (at start-up, and after each sleep).
    CycleStart,
    /// The network configuration is up.
    ConfigUp,
    /// Name resolution answered with these addresses, possibly none.
    Resolved { addresses: Vec<Ipv4Address> },
    /// Name resolution failed.
    ResolveFailed,
    /// The UDP socket is bound.
    Bound,
    /// Binding the UDP socket failed.
    BindFailed,
    /// The reply that arrived.
    Response { bytes: Vec<u8> },
}

/// What the caller must do next.
#[derive(Debug)]
pub enum SyncAction {
    /// Suspend until the network configuration is up, then report `ConfigUp`.
    WaitForConfig,
    /// Resolve `TIME_SERVER_HOST`, then report `Resolved` or `ResolveFailed`.
    Resolve,
    /// Bind a UDP socket to an ephemeral port, then report `Bound` or
    /// `BindFailed`.
    Bind,
    /// Send `request` to `server` on `port`, await one reply and report it.
    Send { request: Vec<u8>, server: Ipv4Address, port: u16 },
    /// Set the wall clock to `correction` if there is one, sleep `secs`
    /// seconds, then report `CycleStart`.
    Sleep { correction: Option<u64>, secs: u64 },
    /// The event does not belong to the current state; nothing to do.
    Ignore,
}

/// The server chosen from a resolution outcome: the first address found, or
/// the fallback when resolution failed or found nothing.
pub open spec fn chosen_server(addresses: Option<Seq<Ipv4Address>>) -> Ipv4Address {
    match addresses {
        Some(a) => if a.len() > 0 { a[0] } else { fallback_server() },
        None => fallback_server(),
    }
}

/// One step of the routine: from state `s`, event `e` leads to state `t`
/// with action `a`.
pub open spec fn sync_step(s: SyncState, e: SyncEvent, t: SyncState, a: SyncAction) -> bool {
    match (s, e) {
        (SyncState::Idle, SyncEvent::CycleStart) => t == SyncState::AwaitingConfig && a
            is WaitForConfig,
        (SyncState::AwaitingConfig, SyncEvent::ConfigUp) => t == SyncState::Resolving && a
            is Resolve,
        (SyncState::Resolving, SyncEvent::Resolved { addresses }) => t == (SyncState::Binding {
            server: chosen_server(Some(addresses@)),
        }) && a is Bind,
        (SyncState::Resolving, SyncEvent::ResolveFailed) => t == (SyncState::Binding {
            server: chosen_server(None),
        }) && a is Bind,
        // A failed bind starts the next cycle at once, without the sleep.
        (SyncState::Binding { .. }, SyncEvent::BindFailed) => t == SyncState::AwaitingConfig
            && a is WaitForConfig,
        (SyncState::Binding { server }, SyncEvent::Bound) => {
            &&& t == SyncState::Exchanging
            &&& a matches SyncAction::Send { request, server: to, port }
            &&& request@ == request_bytes()
            &&& to == server
            &&& port == NTP_PORT
        },
        (SyncState::Exchanging, SyncEvent::Response { bytes }) => {
            &&& t == SyncState::Idle
            &&& a matches SyncAction::Sleep { correction, secs }
            &&& secs == NTP_UPDATE_INTERVAL_SECS
            &&& correction == if response_accepted(bytes@) {
                Some(unix_time_of(bytes@) as u64)
            } else {
                None
            }
        },
        _ => t == s && a is Ignore,
    }
}

/// The time-sync routine's position in its cycle.
pub struct NtpSync {
    pub state: SyncState,
}

impl NtpSync {
    /// A routine that has not started its first cycle.
    pub fn new() -> (r: NtpSync)
        ensures
            r.state == SyncState::Idle,
    {
        NtpSync { state: SyncState::Idle }
    }

    /// Takes the outcome of the last action and returns the next one.
    pub fn handle(&mut self, event: SyncEvent) -> (r: SyncAction)
        ensures
            sync_step(old(self).state, event, final(self).state, r),
    {
        match (self.state, event) {
            (SyncState::Idle, SyncEvent::CycleStart) => {
                self.state = SyncState::AwaitingConfig;
                SyncAction::WaitForConfig
            },
            (SyncState::AwaitingConfig, SyncEvent::ConfigUp) => {
                self.state = SyncState::Resolving;
                SyncAction::Resolve
            },
            (SyncState::Resolving, SyncEvent::Resolved { addresses }) => {
                let server = if addresses.len() > 0 {
                    addresses[0]
                } else {
                    Ipv4Address { a: 216, b: 239, c: 35, d: 0 }
                };
                self.state = SyncState::Binding { server };
                SyncAction::Bind
            },
            (SyncState::Resolving, SyncEvent::ResolveFailed) => {
                self.state = SyncState::Binding { server: Ipv4Address { a: 216, b: 239, c: 35, d: 0 } };
                SyncAction::Bind
            },
            (SyncState::Binding { .. }, SyncEvent::BindFailed) => {
                self.state = SyncState::AwaitingConfig;
                SyncAction::WaitForConfig
            },
            (SyncState::Binding { server }, SyncEvent::Bound) => {
                self.state = SyncState::Exchanging;
                SyncAction::Send { request: ntp_request(), server, port: NTP_PORT }
            },
            (SyncState::Exchanging, SyncEvent::Response { bytes }) => {
                self.state = SyncState::Idle;
                let correction = unix_time_from_response(bytes.as_slice());
                SyncAction::Sleep { correction, secs: NTP_UPDATE_INTERVAL_SECS }
            },
            _ => SyncAction::Ignore,
        }
    }
}

/// The clock is corrected only on a reply, only on one that is accepted, and
/// only to the Unix time that reply carries.
pub proof fn lemma_corrections_come_from_accepted_replies(
    s: SyncState,
    e: SyncEvent,
    t: SyncState,
    a: SyncAction,
    unix: u64,
)
    requires
        sync_step(s, e, t, a),
        a matches SyncAction::Sleep { correction, .. } && correction == Some(unix),
    ensures
        e matches SyncEvent::Response { bytes } && response_accepted(bytes@) && unix
            == unix_time_of(bytes@),
{
}

/// A reply shorter than 47 bytes, whatever it holds, or one whose reference
/// timestamp is at or below the sanity bound, never corrects the clock.
pub proof fn lemma_rejected_reply_never_corrects(
    s: SyncState,
    bytes: Vec<u8>,
    t: SyncState,
    a: SyncAction,
)
    requires
        sync_step(s, SyncEvent::Response { bytes }, t, a),
        bytes@.len() < NTP_MIN_RESPONSE_LEN || reference_timestamp_of(bytes@) <= NTP_SANITY_BOUND,
    ensures
        !(a matches SyncAction::Sleep { correction, .. } && correction is Some),
{
}

} // verus!
