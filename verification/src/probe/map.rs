//! Keys and values of the probes' maps.

use vstd::prelude::*;
use crate::common::packet::FlowKey;

verus! {

/// A 5-tuple as map key.
#[derive(Clone, Copy, Debug, Default)]
pub struct BpfFlowKey {
    pub src_ip: u32,
    pub dst_ip: u32,
    pub src_port: u16,
    pub dst_port: u16,
    pub protocol: u8,
    pub _pad: [u8; 3],
}

impl BpfFlowKey {
    /// The key of a flow; its padding is zero.
    pub open spec fn of(
        src_ip: u32,
        dst_ip: u32,
        src_port: u16,
        dst_port: u16,
        protocol: u8,
    ) -> BpfFlowKey {
        BpfFlowKey { src_ip, dst_ip, src_port, dst_port, protocol, _pad: [0u8, 0u8, 0u8] }
    }

    /// The key of a flow.
    pub fn of_flow(src_ip: u32, dst_ip: u32, src_port: u16, dst_port: u16, protocol: u8) -> (key:
        BpfFlowKey)
        ensures
            key == BpfFlowKey::of(src_ip, dst_ip, src_port, dst_port, protocol),
    {
        BpfFlowKey { src_ip, dst_ip, src_port, dst_port, protocol, _pad: [0u8, 0u8, 0u8] }
    }
}

impl From<FlowKey> for BpfFlowKey {
    fn from(k: FlowKey) -> (key: BpfFlowKey) {
        BpfFlowKey::of_flow(k.src_ip, k.dst_ip, k.src_port, k.dst_port, k.protocol)
    }
}

impl vstd::std_specs::convert::FromSpecImpl<FlowKey> for BpfFlowKey {
    open spec fn obeys_from_spec() -> bool {
        true
    }

    open spec fn from_spec(k: FlowKey) -> BpfFlowKey {
        BpfFlowKey::of(k.src_ip, k.dst_ip, k.src_port, k.dst_port, k.protocol)
    }
}

/// TCP fingerprint parameters of a flow. All zero means inert.
#[derive(Clone, Copy, Debug, PartialEq, Eq)]
pub struct FpParams {
    pub window_size: u16,
    pub ttl: u8,
    pub df_bit: u8,
    pub _reserved: [u8; 4],
}

impl Default for FpParams {
    fn default() -> (params: FpParams)
        ensures
            params.window_size == 0,
            params.ttl == 0,
            params.df_bit == 0,
            params._reserved@ == Seq::new(4, |i: int| 0u8),
    {
        FpParams { window_size: 0, ttl: 0, df_bit: 0, _reserved: [0u8; 4] }
    }
}

/// A map key holds a flow's five values and zeros behind them, whether it is
/// made from the values or from the flow's own key.
pub proof fn map_keys_hold_the_five_values(
    k: FlowKey,
    made: BpfFlowKey,
    converted: BpfFlowKey,
    i: int,
)
    requires
        call_ensures(
            BpfFlowKey::of_flow,
            (k.src_ip, k.dst_ip, k.src_port, k.dst_port, k.protocol),
            made,
        ),
        call_ensures(<BpfFlowKey as From<FlowKey>>::from, (k,), converted),
        0 <= i < 3,
    ensures
        made.src_ip == k.src_ip,
        made.dst_ip == k.dst_ip,
        made.src_port == k.src_port,
        made.dst_port == k.dst_port,
        made.protocol == k.protocol,
        made._pad@[i] == 0,
        converted == made,
{
}

} // verus!
