//! Per-packet and per-flow records.

use vstd::prelude::*;
use super::layout::CacheLine;

verus! {

/// The header fields of one captured packet; one cache line in memory.
#[derive(Clone, Copy, Debug)]
pub struct PacketHeader {
    pub timestamp_ns: u64,
    pub src_ip: u32,
    pub dst_ip: u32,
    pub src_port: u16,
    pub dst_port: u16,
    pub length: u16,
    pub tcp_flags: u8,
    pub protocol: u8,
    pub line: CacheLine,
}

impl PacketHeader {
    /// Every field is zero.
    pub open spec fn all_zero(self) -> bool {
        &&& self.timestamp_ns == 0
        &&& self.src_ip == 0
        &&& self.dst_ip == 0
        &&& self.src_port == 0
        &&& self.dst_port == 0
        &&& self.length == 0
        &&& self.tcp_flags == 0
        &&& self.protocol == 0
    }
}

impl Default for PacketHeader {
    fn default() -> (header: PacketHeader)
        ensures
            header.all_zero(),
    {
        PacketHeader {
            timestamp_ns: 0,
            src_ip: 0,
            dst_ip: 0,
            src_port: 0,
            dst_port: 0,
            length: 0,
            tcp_flags: 0,
            protocol: 0,
            line: CacheLine::new(),
        }
    }
}

/// A flow's 5-tuple; one cache line in memory.
#[derive(Clone, Copy, Debug, Hash)]
pub struct FlowKey {
    pub src_ip: u32,
    pub dst_ip: u32,
    pub src_port: u16,
    pub dst_port: u16,
    pub protocol: u8,
    pub line: CacheLine,
}

impl FlowKey {
    /// The five values that tell one flow from another.
    pub open spec fn five_tuple(self) -> (u32, u32, u16, u16, u8) {
        (self.src_ip, self.dst_ip, self.src_port, self.dst_port, self.protocol)
    }
}

impl Default for FlowKey {
    fn default() -> (key: FlowKey)
        ensures
            key.five_tuple() == (0u32, 0u32, 0u16, 0u16, 0u8),
    {
        FlowKey {
            src_ip: 0,
            dst_ip: 0,
            src_port: 0,
            dst_port: 0,
            protocol: 0,
            line: CacheLine::new(),
        }
    }
}

impl PartialEq for FlowKey {
    fn eq(&self, other: &FlowKey) -> (same: bool) {
        self.src_ip == other.src_ip && self.dst_ip == other.dst_ip && self.src_port
            == other.src_port && self.dst_port == other.dst_port && self.protocol == other.protocol
    }
}

impl vstd::std_specs::cmp::PartialEqSpecImpl for FlowKey {
    open spec fn obeys_eq_spec() -> bool {
        true
    }

    open spec fn eq_spec(&self, other: &FlowKey) -> bool {
        self.five_tuple() == other.five_tuple()
    }
}

impl Eq for FlowKey {

}

/// A flow's sub-scores in millionths; one cache line in memory.
#[derive(Clone, Copy, Debug)]
pub struct FlowScore {
    pub entropy_ppm: u32,
    pub vpin_ppm: u32,
    pub ekf_ppm: u32,
    pub hurst_ppm: u32,
    pub composite_ppm: u32,
    pub line: CacheLine,
}

impl Default for FlowScore {
    fn default() -> (score: FlowScore)
        ensures
            score.entropy_ppm == 0,
            score.vpin_ppm == 0,
            score.ekf_ppm == 0,
            score.hurst_ppm == 0,
            score.composite_ppm == 0,
    {
        FlowScore {
            entropy_ppm: 0,
            vpin_ppm: 0,
            ekf_ppm: 0,
            hurst_ppm: 0,
            composite_ppm: 0,
            line: CacheLine::new(),
        }
    }
}

/// Two flow keys compare equal exactly if they agree on both addresses, both
/// ports and the protocol.
pub proof fn flow_keys_are_equal_iff_all_five_values_are(a: FlowKey, b: FlowKey, same: bool)
    requires
        call_ensures(FlowKey::eq, (&a, &b), same),
    ensures
        same <==> a.src_ip == b.src_ip && a.dst_ip == b.dst_ip && a.src_port == b.src_port
            && a.dst_port == b.dst_port && a.protocol == b.protocol,
{
}

} // verus!
