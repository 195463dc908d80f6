//! The event record that the tracing probes write into the event ring.

use vstd::prelude::*;
use crate::bytes;

verus! {

/// Bytes that an event takes in the event ring.
pub const EBPF_EVENT_SIZE: usize = 48;

/// Event type of an observed packet.
pub const EVENT_PACKET_INGRESS: u8 = 0;

/// Event type of an `execve` call.
pub const EVENT_EXECVE: u8 = 3;

/// Event type of a packet whose flow is flagged as scanning.
pub const EVENT_SCAN_FLAG_SET: u8 = 6;

/// One kernel event. In the event ring it is the 48 bytes that
/// [`EbpfEvent::image`] describes.
#[derive(Clone, Copy, Debug)]
pub struct EbpfEvent {
    pub timestamp_ns: u64,
    pub pid: u32,
    pub uid: u32,
    pub src_ip: u32,
    pub dst_ip: u32,
    pub src_port: u16,
    pub dst_port: u16,
    pub protocol: u8,
    pub event_type: u8,
    pub _pad: [u8; 2],
    pub comm: [u8; 16],
}

impl EbpfEvent {
    /// The event's 48 bytes in the event ring, field after field.
    pub open spec fn image(self) -> Seq<u8> {
        bytes::le_bytes(self.timestamp_ns as nat, 8) + bytes::le_bytes(self.pid as nat, 4)
            + bytes::le_bytes(self.uid as nat, 4) + bytes::le_bytes(self.src_ip as nat, 4)
            + bytes::le_bytes(self.dst_ip as nat, 4) + bytes::le_bytes(self.src_port as nat, 2)
            + bytes::le_bytes(self.dst_port as nat, 2) + seq![self.protocol, self.event_type]
            + self._pad@ + self.comm@
    }

    /// The fields are those that the first 48 bytes of `raw` hold at their
    /// offsets.
    pub open spec fn read_from(self, raw: Seq<u8>) -> bool {
        &&& self.timestamp_ns == bytes::le_value(raw.subrange(0, 8))
        &&& self.pid == bytes::le_value(raw.subrange(8, 12))
        &&& self.uid == bytes::le_value(raw.subrange(12, 16))
        &&& self.src_ip == bytes::le_value(raw.subrange(16, 20))
        &&& self.dst_ip == bytes::le_value(raw.subrange(20, 24))
        &&& self.src_port == bytes::le_value(raw.subrange(24, 26))
        &&& self.dst_port == bytes::le_value(raw.subrange(26, 28))
        &&& self.protocol == raw[28]
        &&& self.event_type == raw[29]
        &&& self._pad@ == raw.subrange(30, 32)
        &&& self.comm@ == raw.subrange(32, 48)
    }

    /// Every field is zero.
    pub open spec fn is_zero(self) -> bool {
        &&& self.timestamp_ns == 0
        &&& self.pid == 0
        &&& self.uid == 0
        &&& self.src_ip == 0
        &&& self.dst_ip == 0
        &&& self.src_port == 0
        &&& self.dst_port == 0
        &&& self.protocol == 0
        &&& self.event_type == 0
        &&& self._pad@ == Seq::new(2, |i: int| 0u8)
        &&& self.comm@ == Seq::new(16, |i: int| 0u8)
    }

    /// The bytes that go into the event ring.
    pub fn to_bytes(&self) -> (raw: [u8; 48])
        ensures
            raw@ == self.image(),
    {
        let mut raw: [u8; 48] = [0u8; 48];
        bytes::put_le(&mut raw, 0, self.timestamp_ns, 8);
        bytes::put_le(&mut raw, 8, self.pid as u64, 4);
        bytes::put_le(&mut raw, 12, self.uid as u64, 4);
        bytes::put_le(&mut raw, 16, self.src_ip as u64, 4);
        bytes::put_le(&mut raw, 20, self.dst_ip as u64, 4);
        bytes::put_le(&mut raw, 24, self.src_port as u64, 2);
        bytes::put_le(&mut raw, 26, self.dst_port as u64, 2);
        raw[28] = self.protocol;
        raw[29] = self.event_type;
        bytes::put_bytes(&mut raw, 30, self._pad.as_slice());
        bytes::put_bytes(&mut raw, 32, self.comm.as_slice());
        proof {
            event_part_lengths(*self);
            assert(raw@ =~= self.image());
        }
        raw
    }
}

impl Default for EbpfEvent {
    fn default() -> (event: EbpfEvent)
        ensures
            event.is_zero(),
    {
        let event = EbpfEvent {
            timestamp_ns: 0,
            pid: 0,
            uid: 0,
            src_ip: 0,
            dst_ip: 0,
            src_port: 0,
            dst_port: 0,
            protocol: 0,
            event_type: 0,
            _pad: [0u8; 2],
            comm: [0u8; 16],
        };
        assert(event._pad@ =~= Seq::new(2, |i: int| 0u8));
        assert(event.comm@ =~= Seq::new(16, |i: int| 0u8));
        event
    }
}

/// The event in the first 48 bytes of `raw`.
pub fn parse_ebpf_event(raw: &[u8]) -> (event: EbpfEvent)
    requires
        raw@.len() >= EBPF_EVENT_SIZE,
    ensures
        event.read_from(raw@),
{
    EbpfEvent {
        timestamp_ns: bytes::read_le_u64(raw, 0),
        pid: bytes::read_le_u32(raw, 8),
        uid: bytes::read_le_u32(raw, 12),
        src_ip: bytes::read_le_u32(raw, 16),
        dst_ip: bytes::read_le_u32(raw, 20),
        src_port: bytes::read_le_u16(raw, 24),
        dst_port: bytes::read_le_u16(raw, 26),
        protocol: raw[28],
        event_type: raw[29],
        _pad: bytes::read_array(raw, 30),
        comm: bytes::read_array(raw, 32),
    }
}

proof fn event_part_lengths(e: EbpfEvent)
    ensures
        bytes::le_bytes(e.timestamp_ns as nat, 8).len() == 8,
        bytes::le_bytes(e.pid as nat, 4).len() == 4,
        bytes::le_bytes(e.uid as nat, 4).len() == 4,
        bytes::le_bytes(e.src_ip as nat, 4).len() == 4,
        bytes::le_bytes(e.dst_ip as nat, 4).len() == 4,
        bytes::le_bytes(e.src_port as nat, 2).len() == 2,
        bytes::le_bytes(e.dst_port as nat, 2).len() == 2,
        bytes::le_value(bytes::le_bytes(e.timestamp_ns as nat, 8)) == e.timestamp_ns,
        bytes::le_value(bytes::le_bytes(e.pid as nat, 4)) == e.pid,
        bytes::le_value(bytes::le_bytes(e.uid as nat, 4)) == e.uid,
        bytes::le_value(bytes::le_bytes(e.src_ip as nat, 4)) == e.src_ip,
        bytes::le_value(bytes::le_bytes(e.dst_ip as nat, 4)) == e.dst_ip,
        bytes::le_value(bytes::le_bytes(e.src_port as nat, 2)) == e.src_port,
        bytes::le_value(bytes::le_bytes(e.dst_port as nat, 2)) == e.dst_port,
{
    bytes::byte_ranges();
    bytes::le_write_then_read(e.timestamp_ns as nat, 8);
    bytes::le_write_then_read(e.pid as nat, 4);
    bytes::le_write_then_read(e.uid as nat, 4);
    bytes::le_write_then_read(e.src_ip as nat, 4);
    bytes::le_write_then_read(e.dst_ip as nat, 4);
    bytes::le_write_then_read(e.src_port as nat, 2);
    bytes::le_write_then_read(e.dst_port as nat, 2);
}

/// What the loader parses out of the event ring is the event that a probe
/// wrote into it, whatever follows the event in the record.
pub proof fn event_survives_the_ring(written: EbpfEvent, rest: Seq<u8>, read: EbpfEvent)
    requires
        read.read_from(written.image() + rest),
    ensures
        read == written,
        written.image().len() == EBPF_EVENT_SIZE,
{
    event_part_lengths(written);
    let raw = written.image() + rest;
    assert(raw.subrange(0, 8) =~= bytes::le_bytes(written.timestamp_ns as nat, 8));
    assert(raw.subrange(8, 12) =~= bytes::le_bytes(written.pid as nat, 4));
    assert(raw.subrange(12, 16) =~= bytes::le_bytes(written.uid as nat, 4));
    assert(raw.subrange(16, 20) =~= bytes::le_bytes(written.src_ip as nat, 4));
    assert(raw.subrange(20, 24) =~= bytes::le_bytes(written.dst_ip as nat, 4));
    assert(raw.subrange(24, 26) =~= bytes::le_bytes(written.src_port as nat, 2));
    assert(raw.subrange(26, 28) =~= bytes::le_bytes(written.dst_port as nat, 2));
    assert(raw.subrange(30, 32) =~= written._pad@);
    assert(raw.subrange(32, 48) =~= written.comm@);
    assert(read._pad =~= written._pad);
    assert(read.comm =~= written.comm);
}

/// The place of every field among an event's 48 bytes. Numbers stand least
/// significant byte first.
pub proof fn event_layout(e: EbpfEvent, written: [u8; 48])
    requires
        call_ensures(EbpfEvent::to_bytes, (&e,), written),
    ensures
        ({
            let raw = written@;
            &&& e.timestamp_ns == raw[0] + 0x100 * raw[1] + 0x1_0000 * raw[2] + 0x100_0000 * raw[3]
                + 0x1_0000_0000 * raw[4] + 0x100_0000_0000 * raw[5] + 0x1_0000_0000_0000 * raw[6]
                + 0x100_0000_0000_0000 * raw[7]
            &&& e.pid == raw[8] + 0x100 * raw[9] + 0x1_0000 * raw[10] + 0x100_0000 * raw[11]
            &&& e.uid == raw[12] + 0x100 * raw[13] + 0x1_0000 * raw[14] + 0x100_0000 * raw[15]
            &&& e.src_ip == raw[16] + 0x100 * raw[17] + 0x1_0000 * raw[18] + 0x100_0000 * raw[19]
            &&& e.dst_ip == raw[20] + 0x100 * raw[21] + 0x1_0000 * raw[22] + 0x100_0000 * raw[23]
            &&& e.src_port == raw[24] + 0x100 * raw[25]
            &&& e.dst_port == raw[26] + 0x100 * raw[27]
            &&& e.protocol == raw[28]
            &&& e.event_type == raw[29]
            &&& forall|i: int| 0 <= i < 2 ==> e._pad@[i] == #[trigger] raw[30 + i]
            &&& forall|i: int| 0 <= i < 16 ==> e.comm@[i] == #[trigger] raw[32 + i]
        }),
{
    event_part_lengths(e);
    let raw = e.image();
    assert(raw.subrange(0, 8) =~= bytes::le_bytes(e.timestamp_ns as nat, 8));
    assert(raw.subrange(8, 12) =~= bytes::le_bytes(e.pid as nat, 4));
    assert(raw.subrange(12, 16) =~= bytes::le_bytes(e.uid as nat, 4));
    assert(raw.subrange(16, 20) =~= bytes::le_bytes(e.src_ip as nat, 4));
    assert(raw.subrange(20, 24) =~= bytes::le_bytes(e.dst_ip as nat, 4));
    assert(raw.subrange(24, 26) =~= bytes::le_bytes(e.src_port as nat, 2));
    assert(raw.subrange(26, 28) =~= bytes::le_bytes(e.dst_port as nat, 2));
    bytes::record_order_8(raw, 0);
    bytes::record_order_4(raw, 8);
    bytes::record_order_4(raw, 12);
    bytes::record_order_4(raw, 16);
    bytes::record_order_4(raw, 20);
    bytes::record_order_2(raw, 24);
    bytes::record_order_2(raw, 26);
}

/// What is parsed out of a record is what its bytes hold at their places,
/// whoever wrote them and whatever follows.
pub proof fn parsed_event_layout(record: &[u8], raw: Seq<u8>, e: EbpfEvent)
    requires
        raw == record@,
        raw.len() >= 48,
        call_ensures(parse_ebpf_event, (record,), e),
    ensures
        e.timestamp_ns == raw[0] + 0x100 * raw[1] + 0x1_0000 * raw[2] + 0x100_0000 * raw[3]
            + 0x1_0000_0000 * raw[4] + 0x100_0000_0000 * raw[5] + 0x1_0000_0000_0000 * raw[6]
            + 0x100_0000_0000_0000 * raw[7],
        e.pid == raw[8] + 0x100 * raw[9] + 0x1_0000 * raw[10] + 0x100_0000 * raw[11],
        e.uid == raw[12] + 0x100 * raw[13] + 0x1_0000 * raw[14] + 0x100_0000 * raw[15],
        e.src_ip == raw[16] + 0x100 * raw[17] + 0x1_0000 * raw[18] + 0x100_0000 * raw[19],
        e.dst_ip == raw[20] + 0x100 * raw[21] + 0x1_0000 * raw[22] + 0x100_0000 * raw[23],
        e.src_port == raw[24] + 0x100 * raw[25],
        e.dst_port == raw[26] + 0x100 * raw[27],
        e.protocol == raw[28],
        e.event_type == raw[29],
        forall|i: int| 0 <= i < 2 ==> e._pad@[i] == #[trigger] raw[30 + i],
        forall|i: int| 0 <= i < 16 ==> e.comm@[i] == #[trigger] raw[32 + i],
{
    bytes::record_order_8(raw, 0);
    bytes::record_order_4(raw, 8);
    bytes::record_order_4(raw, 12);
    bytes::record_order_4(raw, 16);
    bytes::record_order_4(raw, 20);
    bytes::record_order_2(raw, 24);
    bytes::record_order_2(raw, 26);
    assert forall|i: int| 0 <= i < 2 implies e._pad@[i] == #[trigger] raw[30 + i] by {
        assert(raw.subrange(30, 32)[i] == raw[30 + i]);
    }
    assert forall|i: int| 0 <= i < 16 implies e.comm@[i] == #[trigger] raw[32 + i] by {
        assert(raw.subrange(32, 48)[i] == raw[32 + i]);
    }
}

/// Parsing what a probe wrote gives back the event, whatever follows it in the
/// record.
pub proof fn parsing_undoes_writing(
    event: EbpfEvent,
    written: [u8; 48],
    record: &[u8],
    parsed: EbpfEvent,
)
    requires
        call_ensures(EbpfEvent::to_bytes, (&event,), written),
        record@.len() >= 48,
        record@.subrange(0, 48) == written@,
        call_ensures(parse_ebpf_event, (record,), parsed),
    ensures
        parsed == event,
{
    let rest = record@.subrange(48, record@.len() as int);
    assert(record@ =~= written@ + rest);
    event_survives_the_ring(event, rest, parsed);
}

/// An event that nothing has filled is zero in every byte of its record.
pub proof fn default_event_is_zero_bytes(e: EbpfEvent, written: [u8; 48], i: int)
    requires
        call_ensures(EbpfEvent::default, (), e),
        call_ensures(EbpfEvent::to_bytes, (&e,), written),
        0 <= i < 48,
    ensures
        written@[i] == 0,
{
    event_layout(e, written);
    if 30 <= i < 32 {
        assert(e._pad@[i - 30] == written@[30 + (i - 30)]);
    } else if i >= 32 {
        assert(e.comm@[i - 32] == written@[32 + (i - 32)]);
    }
}

} // verus!
