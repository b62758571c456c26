//! Ethernet/IPv4 frame inspection, and the capture filter text.
//!
//! The capture side of the tunnel watches one host address: a captured frame
//! is forwarded when that address is its IPv4 source or destination. A frame
//! is read as an Ethernet header (14 bytes, EtherType IPv4) followed by an
//! IPv4 header of at least 20 bytes.

use vstd::prelude::*;
use vstd::string::StringExecFns;

use crate::text::{dec_str_of, u64_to_string};

verus! {

/// An IPv4 address as four octets.
#[derive(Clone, Copy, Debug, PartialEq, Eq, Structural)]
pub struct Ipv4 {
    pub a: u8,
    pub b: u8,
    pub c: u8,
    pub d: u8,
}

impl Ipv4 {
    /// The address `a.b.c.d`.
    pub fn new(a: u8, b: u8, c: u8, d: u8) -> (r: Ipv4)
        ensures
            r == (Ipv4 { a, b, c, d }),
    {
        Ipv4 { a, b, c, d }
    }
}

/// The source and destination addresses of a frame: present exactly when the
/// frame is long enough, carries the IPv4 EtherType, and declares a header
/// length of at least 20 bytes that fits in the frame.
pub open spec fn ipv4_src_dst_of(frame: Seq<u8>) -> Option<(Ipv4, Ipv4)> {
    if frame.len() < 34 {
        None
    } else if (frame[12] as int) * 256 + (frame[13] as int) != 0x0800 {
        None
    } else {
        let ihl_bytes = ((frame[14] & 0x0F) as int) * 4;
        if ihl_bytes < 20 || frame.len() < 14 + ihl_bytes {
            None
        } else {
            Some(
                (
                    Ipv4 { a: frame[26], b: frame[27], c: frame[28], d: frame[29] },
                    Ipv4 { a: frame[30], b: frame[31], c: frame[32], d: frame[33] },
                ),
            )
        }
    }
}

/// Reads a frame's IPv4 source and destination, exactly as
/// `ipv4_src_dst_of` states.
pub fn extract_ipv4_src_dst(frame: &[u8]) -> (r: Option<(Ipv4, Ipv4)>)
    ensures
        r == ipv4_src_dst_of(frame@),
{
    if frame.len() < 34 {
        return None;
    }
    let ether_type: u32 = (frame[12] as u32) * 256 + (frame[13] as u32);
    if ether_type != 0x0800 {
        return None;
    }
    let b14 = frame[14];
    let ihl_nibble = b14 & 0x0F;
    assert(b14 & 0x0F <= 0x0F) by (bit_vector);
    let ihl_bytes = (ihl_nibble as usize) * 4;
    if ihl_bytes < 20 || frame.len() < 14 + ihl_bytes {
        return None;
    }
    Some(
        (
            Ipv4::new(frame[26], frame[27], frame[28], frame[29]),
            Ipv4::new(frame[30], frame[31], frame[32], frame[33]),
        ),
    )
}

/// Whether a frame speaks to or from the address: its IPv4 source or
/// destination is `ip`; a frame without readable addresses matches nothing.
pub open spec fn frame_matches_ip_spec(frame: Seq<u8>, ip: Ipv4) -> bool {
    match ipv4_src_dst_of(frame) {
        Some((src, dst)) => src == ip || dst == ip,
        None => false,
    }
}

/// Decides `frame_matches_ip_spec`.
pub fn frame_matches_ip(frame: &[u8], ip: Ipv4) -> (r: bool)
    ensures
        r == frame_matches_ip_spec(frame@, ip),
{
    match extract_ipv4_src_dst(frame) {
        Some((src, dst)) => src == ip || dst == ip,
        None => false,
    }
}

/// An address in dotted decimal.
pub open spec fn ipv4_str_of(ip: Ipv4) -> Seq<char> {
    dec_str_of(ip.a as nat) + "."@ + dec_str_of(ip.b as nat) + "."@ + dec_str_of(ip.c as nat)
        + "."@ + dec_str_of(ip.d as nat)
}

/// Renders an address in dotted decimal, exactly as `ipv4_str_of` states.
pub fn ipv4_to_string(ip: Ipv4) -> (r: String)
    ensures
        r@ == ipv4_str_of(ip),
{
    let mut s = u64_to_string(ip.a as u64);
    s.append(".");
    let b = u64_to_string(ip.b as u64);
    s.append(b.as_str());
    s.append(".");
    let c = u64_to_string(ip.c as u64);
    s.append(c.as_str());
    s.append(".");
    let d = u64_to_string(ip.d as u64);
    s.append(d.as_str());
    proof {
        assert(s@ =~= ipv4_str_of(ip));
    }
    s
}

/// The capture filter that keeps IPv4 traffic to or from one host.
pub fn build_bpf_filter(ip: Ipv4) -> (r: String)
    ensures
        r@ == "ip and host "@ + ipv4_str_of(ip),
{
    let mut s = "ip and host ".to_owned();
    let t = ipv4_to_string(ip);
    s.append(t.as_str());
    proof {
        assert(s@ =~= "ip and host "@ + ipv4_str_of(ip));
    }
    s
}

} // verus!
