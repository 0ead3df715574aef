//! The NTP wire format as far as this client uses it: the request it sends
//! and the one field it reads from the reply.
use vstd::prelude::*;

verus! {

/// Length of the request packet.
pub const NTP_PACKET_LEN: usize = 48;

/// Shortest reply that is accepted.
pub const NTP_MIN_RESPONSE_LEN: usize = 47;

/// First byte of the request: leap indicator 0, version 4, mode 3 (client).
pub const NTP_CLIENT_HEADER: u8 = 0x23;

/// UDP port of an NTP server.
pub const NTP_PORT: u16 = 123;

/// Seconds from the NTP epoch (1900-01-01) to the Unix epoch (1970-01-01).
pub const NTP_TO_UNIX_EPOCH_OFFSET: u64 = 2208988800;

/// Reference timestamps at or below this (2023-11-06 in NTP seconds) are
/// taken for garbage.
pub const NTP_SANITY_BOUND: u32 = 3908215872;

/// The request packet: the header byte followed by zeros.
pub open spec fn request_bytes() -> Seq<u8> {
    Seq::new(NTP_PACKET_LEN as nat, |i: int| if i == 0 { NTP_CLIENT_HEADER } else { 0u8 })
}

/// The big-endian unsigned integer of four bytes.
pub open spec fn be_u32(b0: u8, b1: u8, b2: u8, b3: u8) -> int {
    b0 * 0x100_0000 + b1 * 0x1_0000 + b2 * 0x100 + b3
}

/// The reference timestamp, bytes 16 to 19 of a reply, in NTP seconds.
pub open spec fn reference_timestamp_of(resp: Seq<u8>) -> int
    recommends
        resp.len() >= 20,
{
    be_u32(resp[16], resp[17], resp[18], resp[19])
}

/// Whether a reply is long enough and carries a plausible timestamp.
pub open spec fn response_accepted(resp: Seq<u8>) -> bool {
    resp.len() >= NTP_MIN_RESPONSE_LEN && reference_timestamp_of(resp) > NTP_SANITY_BOUND
}

/// The Unix time that an accepted reply gives.
pub open spec fn unix_time_of(resp: Seq<u8>) -> int {
    reference_timestamp_of(resp) - NTP_TO_UNIX_EPOCH_OFFSET
}

/// Builds the request packet.
pub fn ntp_request() -> (r: Vec<u8>)
    ensures
        r@ == request_bytes(),
{
    let mut r: Vec<u8> = Vec::new();
    r.push(NTP_CLIENT_HEADER);
    while r.len() < NTP_PACKET_LEN
        invariant
            1 <= r.len() <= NTP_PACKET_LEN,
            r@[0] == NTP_CLIENT_HEADER,
            forall|i: int| 1 <= i < r.len() ==> r@[i] == 0u8,
        decreases NTP_PACKET_LEN - r.len(),
    {
        r.push(0u8);
    }
    assert(r@ =~= request_bytes());
    r
}

/// Reads the big-endian reference timestamp at bytes 16 to 19.
pub fn reference_timestamp(resp: &[u8]) -> (r: u32)
    requires
        resp@.len() >= 20,
    ensures
        r == reference_timestamp_of(resp@),
{
    let b0 = resp[16] as u32;
    let b1 = resp[17] as u32;
    let b2 = resp[18] as u32;
    let b3 = resp[19] as u32;
    b0 * 0x100_0000 + b1 * 0x1_0000 + b2 * 0x100 + b3
}

/// The Unix time carried by a reply, or `None` where the reply is shorter
/// than 47 bytes or its reference timestamp is not above the sanity bound.
pub fn unix_time_from_response(resp: &[u8]) -> (r: Option<u64>)
    ensures
        response_accepted(resp@) ==> r == Some(unix_time_of(resp@) as u64),
        !response_accepted(resp@) ==> r is None,
        r matches Some(t) ==> t == unix_time_of(resp@),
{
    if resp.len() < NTP_MIN_RESPONSE_LEN {
        return None;
    }
    let ts = reference_timestamp(resp);
    if ts > NTP_SANITY_BOUND {
        Some(ts as u64 - NTP_TO_UNIX_EPOCH_OFFSET)
    } else {
        None
    }
}

} // verus!
