//! What the loader writes into the probes' maps.

use vstd::prelude::*;
use crate::common::packet::FlowKey;
use crate::probe::agreement;
use crate::probe::fingerprint::tcp_fp_probe;
use crate::probe::ingress::packet_ingress;
use crate::probe::map::{BpfFlowKey, FpParams};
use crate::probe::verdict::{TaskContext, Verdict};

verus! {

/// The entry that puts a source on the deny list.
pub const DENY_FLAG: u8 = 1;

/// Flags of an insertion that creates or replaces.
pub const BPF_ANY: u64 = 0;

/// An operation on one of the maps.
#[derive(Clone, Copy, Debug)]
pub enum MapCommand {
    InsertDeny { key: u32, value: u8, flags: u64 },
    RemoveDeny { key: u32 },
    InsertScanFlag { key: BpfFlowKey, value: u64, flags: u64 },
    RemoveScanFlag { key: BpfFlowKey },
    InsertFingerprint { key: BpfFlowKey, value: FpParams, flags: u64 },
}

/// What the kernel said to an operation.
#[derive(Clone, Copy, Debug, PartialEq, Eq, Structural)]
pub enum MapOutcome {
    Done,
    KeyMissing,
    Failed,
}

/// A map operation failed.
#[derive(Clone, Copy, Debug, PartialEq, Eq, Structural)]
pub enum EbpfSourceError {
    MapWrite(MapOutcome),
}

/// The map key of a flow.
pub open spec fn map_key(key: FlowKey) -> BpfFlowKey {
    BpfFlowKey::of(key.src_ip, key.dst_ip, key.src_port, key.dst_port, key.protocol)
}

/// Puts `src_ip` on the deny list.
pub fn write_deny_entry(src_ip: u32) -> (command: MapCommand)
    ensures
        command == (MapCommand::InsertDeny { key: src_ip, value: DENY_FLAG, flags: BPF_ANY }),
{
    MapCommand::InsertDeny { key: src_ip, value: DENY_FLAG, flags: BPF_ANY }
}

/// Takes `src_ip` off the deny list.
pub fn remove_deny_entry(src_ip: u32) -> (command: MapCommand)
    ensures
        command == (MapCommand::RemoveDeny { key: src_ip }),
{
    MapCommand::RemoveDeny { key: src_ip }
}

/// Flags a flow as scanning until `expiry_ns`.
pub fn write_scan_flag(key: FlowKey, expiry_ns: u64) -> (command: MapCommand)
    ensures
        command == (MapCommand::InsertScanFlag {
            key: map_key(key),
            value: expiry_ns,
            flags: BPF_ANY,
        }),
{
    MapCommand::InsertScanFlag { key: BpfFlowKey::from(key), value: expiry_ns, flags: BPF_ANY }
}

/// Takes a flow's scan flag away.
pub fn clear_scan_flag(key: FlowKey) -> (command: MapCommand)
    ensures
        command == (MapCommand::RemoveScanFlag { key: map_key(key) }),
{
    MapCommand::RemoveScanFlag { key: BpfFlowKey::from(key) }
}

/// Gives a flow fingerprint parameters.
pub fn write_fingerprint(key: FlowKey, params: FpParams) -> (command: MapCommand)
    ensures
        command == (MapCommand::InsertFingerprint {
            key: map_key(key),
            value: params,
            flags: BPF_ANY,
        }),
{
    MapCommand::InsertFingerprint { key: BpfFlowKey::from(key), value: params, flags: BPF_ANY }
}

/// Gives a flow inert fingerprint parameters.
pub fn write_inert_fingerprint(key: FlowKey) -> (command: MapCommand)
    ensures
        command matches MapCommand::InsertFingerprint { key: k, value, flags } && {
            &&& k == map_key(key)
            &&& value.window_size == 0
            &&& value.ttl == 0
            &&& value.df_bit == 0
            &&& value._reserved@ == Seq::new(4, |i: int| 0u8)
            &&& flags == BPF_ANY
        },
{
    write_fingerprint(key, FpParams::default())
}

/// The operation only removes.
pub open spec fn is_removal(command: MapCommand) -> bool {
    command is RemoveDeny || command is RemoveScanFlag
}

/// Judges the kernel's answer. Removing what is not there is no error.
pub fn settle(command: MapCommand, outcome: MapOutcome) -> (verdict: Result<(), EbpfSourceError>)
    ensures
        verdict is Ok <==> outcome is Done || (outcome is KeyMissing && is_removal(command)),
        verdict matches Err(e) ==> e == EbpfSourceError::MapWrite(outcome),
{
    let removal: bool = match command {
        MapCommand::RemoveDeny { .. } => true,
        MapCommand::RemoveScanFlag { .. } => true,
        _ => false,
    };
    match outcome {
        MapOutcome::Done => Ok(()),
        MapOutcome::KeyMissing if removal => Ok(()),
        _ => Err(EbpfSourceError::MapWrite(outcome)),
    }
}

/// The deny map's entry for `src_ip` after an operation that the kernel
/// carried out, given the entry before.
pub open spec fn deny_entry_after(
    before: Option<u8>,
    src_ip: u32,
    command: MapCommand,
) -> Option<u8> {
    match command {
        MapCommand::InsertDeny { key, value, .. } if key == src_ip => Some(value),
        MapCommand::RemoveDeny { key } if key == src_ip => None,
        _ => before,
    }
}

/// Putting a source on the deny list twice is putting it there once, and
/// taking it off undoes both.
pub proof fn deny_entries_are_idempotent(before: Option<u8>, src_ip: u32, put: MapCommand, take: MapCommand)
    requires
        put == (MapCommand::InsertDeny { key: src_ip, value: DENY_FLAG, flags: BPF_ANY }),
        take == (MapCommand::RemoveDeny { key: src_ip }),
    ensures
        ({
            let once = deny_entry_after(before, src_ip, put);
            &&& deny_entry_after(once, src_ip, put) == once
            &&& deny_entry_after(once, src_ip, take) is None
            &&& deny_entry_after(None, src_ip, take) is None
        }),
{
}

/// Once the source a.b.c.d is on the deny list, the packet probe drops every
/// IPv4 packet whose bytes 26 to 29 are a, b, c and d, and reports that
/// source, whatever the list held before.
pub proof fn listed_sources_are_dropped<D: Fn(u32) -> bool, S: Fn(BpfFlowKey) -> bool>(
    before: spec_fn(u32) -> Option<u8>,
    source: u32,
    put: MapCommand,
    packet: &[u8],
    now_ns: u64,
    is_denied: &D,
    is_flagged: &S,
    verdict: Verdict,
)
    requires
        call_ensures(write_deny_entry, (source,), put),
        agreement::has_ip_header(packet@),
        source == packet@[26] * 0x100_0000 + packet@[27] * 0x1_0000 + packet@[28] * 0x100
            + packet@[29],
        forall|asked: u32, answer: bool| #[trigger]
            is_denied.ensures((asked,), answer) ==> answer == (deny_entry_after(
                before(asked),
                asked,
                put,
            ) is Some),
        call_ensures(packet_ingress::<D, S>, (packet, now_ns, is_denied, is_flagged), verdict),
    ensures
        verdict.action == 1,
        verdict.event matches Some(e) && e.src_ip == source,
{
    agreement::denied_source_is_dropped(packet, now_ns, is_denied, is_flagged, source, verdict);
}

/// Once a source is off the deny list, the packet probe drops none of its
/// packets.
pub proof fn delisted_sources_pass<D: Fn(u32) -> bool, S: Fn(BpfFlowKey) -> bool>(
    before: spec_fn(u32) -> Option<u8>,
    source: u32,
    take: MapCommand,
    packet: &[u8],
    now_ns: u64,
    is_denied: &D,
    is_flagged: &S,
    verdict: Verdict,
)
    requires
        call_ensures(remove_deny_entry, (source,), take),
        agreement::has_ip_header(packet@),
        source == packet@[26] * 0x100_0000 + packet@[27] * 0x1_0000 + packet@[28] * 0x100
            + packet@[29],
        forall|asked: u32, answer: bool| #[trigger]
            is_denied.ensures((asked,), answer) ==> answer == (deny_entry_after(
                before(asked),
                asked,
                take,
            ) is Some),
        call_ensures(packet_ingress::<D, S>, (packet, now_ns, is_denied, is_flagged), verdict),
    ensures
        verdict.action == 2,
{
    crate::bytes::network_order_2(packet@, 12);
    crate::bytes::network_order_4(packet@, 26);
}

/// A write to the deny list touches no other source's entry, and no flow's.
pub proof fn deny_writes_touch_one_source(
    before: Option<u8>,
    source: u32,
    other: u32,
    put: MapCommand,
    take: MapCommand,
)
    requires
        call_ensures(write_deny_entry, (source,), put),
        call_ensures(remove_deny_entry, (source,), take),
    ensures
        deny_entry_after(before, source, put) == Some(1u8),
        deny_entry_after(before, source, take) is None,
        other != source ==> deny_entry_after(before, other, put) == before,
        other != source ==> deny_entry_after(before, other, take) == before,
        forall|e: Option<u64>, key: BpfFlowKey| scan_entry_after(e, key, put) == e,
        forall|e: Option<u64>, key: BpfFlowKey| scan_entry_after(e, key, take) == e,
        forall|e: Option<FpParams>, key: BpfFlowKey| fingerprint_entry_after(e, key, put) == e,
        forall|e: Option<FpParams>, key: BpfFlowKey| fingerprint_entry_after(e, key, take) == e,
{
}

/// The scan-flag map's entry for `key` after an operation that the kernel
/// carried out, given the entry before.
pub open spec fn scan_entry_after(
    before: Option<u64>,
    key: BpfFlowKey,
    command: MapCommand,
) -> Option<u64> {
    match command {
        MapCommand::InsertScanFlag { key: k, value, .. } if k == key => Some(value),
        MapCommand::RemoveScanFlag { key: k } if k == key => None,
        _ => before,
    }
}

/// The fingerprint map's entry for `key` after an operation that the kernel
/// carried out, given the entry before.
pub open spec fn fingerprint_entry_after(
    before: Option<FpParams>,
    key: BpfFlowKey,
    command: MapCommand,
) -> Option<FpParams> {
    match command {
        MapCommand::InsertFingerprint { key: k, value, .. } if k == key => Some(value),
        _ => before,
    }
}

/// Flagging a flow writes its expiry under the key that has the flow's five
/// values, creating or replacing; clearing removes that same key; a
/// fingerprint goes under it too.
pub proof fn commands_name_the_flow(
    k: FlowKey,
    expiry_ns: u64,
    params: FpParams,
    flag: MapCommand,
    clear: MapCommand,
    arm: MapCommand,
    arm_inert: MapCommand,
)
    requires
        call_ensures(write_scan_flag, (k, expiry_ns), flag),
        call_ensures(clear_scan_flag, (k,), clear),
        call_ensures(write_fingerprint, (k, params), arm),
        call_ensures(write_inert_fingerprint, (k,), arm_inert),
    ensures
        flag matches MapCommand::InsertScanFlag { key, value, flags } && agreement::is_key_of(key, k)
            && value == expiry_ns && flags == 0,
        clear matches MapCommand::RemoveScanFlag { key } && agreement::is_key_of(key, k),
        arm matches MapCommand::InsertFingerprint { key, value, flags } && agreement::is_key_of(
            key,
            k,
        ) && value == params && flags == 0,
        arm_inert matches MapCommand::InsertFingerprint { key, value, flags }
            && agreement::is_key_of(key, k) && value.window_size == 0 && value.ttl == 0
            && value.df_bit == 0 && (forall|i: int| 0 <= i < 4 ==> value._reserved@[i] == 0)
            && flags == 0,
{
}

/// The keys of two flows are equal exactly if the flows agree on all of source
/// address, destination address, source port, destination port and protocol.
/// So a write for one flow touches another flow's entry only if they are the
/// same flow.
pub proof fn keys_tell_flows_apart(
    a: FlowKey,
    b: FlowKey,
    expiry_ns: u64,
    params: FpParams,
    flag_a: MapCommand,
    clear_a: MapCommand,
    arm_a: MapCommand,
    flag_b: MapCommand,
    clear_b: MapCommand,
    arm_b: MapCommand,
)
    requires
        call_ensures(write_scan_flag, (a, expiry_ns), flag_a),
        call_ensures(clear_scan_flag, (a,), clear_a),
        call_ensures(write_fingerprint, (a, params), arm_a),
        call_ensures(write_scan_flag, (b, expiry_ns), flag_b),
        call_ensures(clear_scan_flag, (b,), clear_b),
        call_ensures(write_fingerprint, (b, params), arm_b),
    ensures
        ({
            let same = a.src_ip == b.src_ip && a.dst_ip == b.dst_ip && a.src_port == b.src_port
                && a.dst_port == b.dst_port && a.protocol == b.protocol;
            &&& flag_a->InsertScanFlag_key == flag_b->InsertScanFlag_key <==> same
            &&& clear_a->RemoveScanFlag_key == clear_b->RemoveScanFlag_key <==> same
            &&& arm_a->InsertFingerprint_key == arm_b->InsertFingerprint_key <==> same
            &&& flag_a->InsertScanFlag_key == clear_b->RemoveScanFlag_key <==> same
            &&& flag_a->InsertScanFlag_key == arm_b->InsertFingerprint_key <==> same
            &&& a.five_tuple() == b.five_tuple() <==> same
            &&& map_key(a) == map_key(b) <==> same
        }),
{
}

/// What the loader writes for a flow is what the packet probe asks for: once
/// the flow `k` is flagged, a packet of `k` is reported as a scan, and once it
/// is cleared, as an ordinary packet. A packet of any other flow is reported
/// as it would have been before.
pub proof fn scan_flags_reach_the_packet_probe<D: Fn(u32) -> bool, S: Fn(BpfFlowKey) -> bool>(
    before: spec_fn(BpfFlowKey) -> Option<u64>,
    k: FlowKey,
    expiry_ns: u64,
    command: MapCommand,
    of: FlowKey,
    key: BpfFlowKey,
    packet: &[u8],
    now_ns: u64,
    is_denied: &D,
    is_flagged: &S,
    verdict: Verdict,
)
    requires
        call_ensures(write_scan_flag, (k, expiry_ns), command) || call_ensures(
            clear_scan_flag,
            (k,),
            command,
        ),
        agreement::carries(packet@, of),
        agreement::is_key_of(key, of),
        forall|answer: bool| is_denied.ensures((of.src_ip,), answer) ==> !answer,
        forall|asked: BpfFlowKey, answer: bool| #[trigger]
            is_flagged.ensures((asked,), answer) ==> answer == (scan_entry_after(
                before(asked),
                asked,
                command,
            ) is Some),
        call_ensures(packet_ingress::<D, S>, (packet, now_ns, is_denied, is_flagged), verdict),
    ensures
        ({
            let same = k.src_ip == of.src_ip && k.dst_ip == of.dst_ip && k.src_port == of.src_port
                && k.dst_port == of.dst_port && k.protocol == of.protocol;
            let scanning = if same {
                command is InsertScanFlag
            } else {
                before(key) is Some
            };
            &&& verdict.action == 2
            &&& verdict.event matches Some(e) && e.event_type == if scanning {
                6u8
            } else {
                0u8
            }
        }),
{
    let flagged = scan_entry_after(before(key), key, command) is Some;
    agreement::packet_probe_reports_the_flow(
        packet,
        now_ns,
        is_denied,
        is_flagged,
        of,
        key,
        flagged,
        verdict,
    );
}

/// What the loader writes for a flow is what the fingerprint probe asks for:
/// once the flow `k` has fingerprint parameters, inert ones among them, a TCP
/// packet of `k` is reported. A packet of any other flow is reported exactly
/// if that flow had parameters before.
pub proof fn fingerprints_reach_the_fingerprint_probe<F: Fn(BpfFlowKey) -> bool>(
    before: spec_fn(BpfFlowKey) -> Option<FpParams>,
    k: FlowKey,
    params: FpParams,
    command: MapCommand,
    of: FlowKey,
    key: BpfFlowKey,
    packet: &[u8],
    task: TaskContext,
    now_ns: u64,
    has_fingerprint: &F,
    verdict: Verdict,
)
    requires
        call_ensures(write_fingerprint, (k, params), command) || call_ensures(
            write_inert_fingerprint,
            (k,),
            command,
        ),
        agreement::carries(packet@, of),
        of.protocol == 6,
        agreement::is_key_of(key, of),
        forall|asked: BpfFlowKey, answer: bool| #[trigger]
            has_fingerprint.ensures((asked,), answer) ==> answer == (fingerprint_entry_after(
                before(asked),
                asked,
                command,
            ) is Some),
        call_ensures(tcp_fp_probe::<F>, (packet, task, now_ns, has_fingerprint), verdict),
    ensures
        ({
            let same = k.src_ip == of.src_ip && k.dst_ip == of.dst_ip && k.src_port == of.src_port
                && k.dst_port == of.dst_port && k.protocol == of.protocol;
            &&& verdict.action == 2
            &&& verdict.event is Some <==> same || before(key) is Some
            &&& verdict.event matches Some(e) ==> e.src_ip == of.src_ip && e.dst_ip == of.dst_ip
                && e.src_port == of.src_port && e.dst_port == of.dst_port && e.protocol == 6
                && e.event_type == 6
        }),
{
    let armed = fingerprint_entry_after(before(key), key, command) is Some;
    agreement::fingerprint_probe_reports_the_flow(
        packet,
        task,
        now_ns,
        has_fingerprint,
        of,
        key,
        armed,
        verdict,
    );
}

/// A write is settled only by the kernel carrying it out; a removal is settled
/// by the key's absence too. Every other answer comes back as the error.
pub proof fn only_removals_settle_for_a_missing_key(
    source: u32,
    k: FlowKey,
    expiry_ns: u64,
    params: FpParams,
    command: MapCommand,
    outcome: MapOutcome,
    settled: Result<(), EbpfSourceError>,
)
    requires
        call_ensures(settle, (command, outcome), settled),
    ensures
        outcome == MapOutcome::Done ==> settled is Ok,
        outcome == MapOutcome::Failed ==> settled == Err::<(), _>(
            EbpfSourceError::MapWrite(MapOutcome::Failed),
        ),
        call_ensures(remove_deny_entry, (source,), command) && outcome == MapOutcome::KeyMissing
            ==> settled is Ok,
        call_ensures(clear_scan_flag, (k,), command) && outcome == MapOutcome::KeyMissing
            ==> settled is Ok,
        ({
            ||| call_ensures(write_deny_entry, (source,), command)
            ||| call_ensures(write_scan_flag, (k, expiry_ns), command)
            ||| call_ensures(write_fingerprint, (k, params), command)
            ||| call_ensures(write_inert_fingerprint, (k,), command)
        }) && outcome == MapOutcome::KeyMissing ==> settled == Err::<(), _>(
            EbpfSourceError::MapWrite(MapOutcome::KeyMissing),
        ),
{
}

} // verus!
