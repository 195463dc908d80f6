//! The record that the ingress probe hands to the capture engine.

use vstd::prelude::*;
use crate::bytes;
use super::layout;
use super::layout::CacheLine;

verus! {

/// Bytes that a frame takes in the ring buffer.
pub const SIGNAL_FRAME_SIZE: usize = 64;

/// One observed packet. In memory a frame is one cache line; in the ring
/// buffer it is the 64 bytes that [`SignalFrame::image`] describes.
#[derive(Clone, Copy, Debug)]
pub struct SignalFrame {
    /// Murmur3 hash of the 5-tuple.
    pub flow_hash: u64,
    /// Monotonic nanoseconds at ingress.
    pub timestamp_ns: u64,
    /// Raw 20-byte IPv4 header, without options.
    pub l3_hdr: [u8; 20],
    /// TCP flags in the low nine bits, protocol in bits 16 to 23.
    pub l4_flags: u32,
    /// Packet-rate delta, saturating.
    pub pps_delta: u32,
    /// CPU that saw the packet.
    pub cpu_id: u32,
    /// Explicit padding, zero in every frame that a probe builds.
    pub _pad: [u8; 16],
    /// Cache-line alignment.
    pub line: CacheLine,
}

impl SignalFrame {
    /// The frame's 64 bytes in the ring buffer, field after field.
    pub open spec fn image(self) -> Seq<u8> {
        bytes::le_bytes(self.flow_hash as nat, 8) + bytes::le_bytes(self.timestamp_ns as nat, 8) + self.l3_hdr@
            + bytes::le_bytes(self.l4_flags as nat, 4) + bytes::le_bytes(self.pps_delta as nat, 4) + bytes::le_bytes(
            self.cpu_id as nat,
            4,
        ) + self._pad@
    }

    /// The fields are those that the 64 bytes `raw` hold at their offsets.
    pub open spec fn read_from(self, raw: Seq<u8>) -> bool {
        &&& self.flow_hash == bytes::le_value(raw.subrange(0, 8))
        &&& self.timestamp_ns == bytes::le_value(raw.subrange(8, 16))
        &&& self.l3_hdr@ == raw.subrange(16, 36)
        &&& self.l4_flags == bytes::le_value(raw.subrange(36, 40))
        &&& self.pps_delta == bytes::le_value(raw.subrange(40, 44))
        &&& self.cpu_id == bytes::le_value(raw.subrange(44, 48))
        &&& self._pad@ == raw.subrange(48, 64)
    }

    /// A frame with every field zero.
    pub fn zeroed() -> (frame: SignalFrame)
        ensures
            frame.flow_hash == 0,
            frame.timestamp_ns == 0,
            frame.l3_hdr@ == Seq::new(20, |i: int| 0u8),
            frame.l4_flags == 0,
            frame.pps_delta == 0,
            frame.cpu_id == 0,
            frame._pad@ == Seq::new(16, |i: int| 0u8),
    {
        SignalFrame {
            flow_hash: 0,
            timestamp_ns: 0,
            l3_hdr: [0u8; 20],
            l4_flags: 0,
            pps_delta: 0,
            cpu_id: 0,
            _pad: [0u8; 16],
            line: CacheLine::new(),
        }
    }

    /// The frame that `raw` holds; `None` unless `raw` is exactly one frame
    /// long.
    pub fn from_bytes(raw: &[u8]) -> (frame: Option<SignalFrame>)
        ensures
            match frame {
                Some(f) => raw@.len() == SIGNAL_FRAME_SIZE && f.read_from(raw@),
                None => raw@.len() != SIGNAL_FRAME_SIZE,
            },
    {
        if raw.len() != SIGNAL_FRAME_SIZE {
            return None;
        }
        Some(
            SignalFrame {
                flow_hash: bytes::read_le_u64(raw, 0),
                timestamp_ns: bytes::read_le_u64(raw, 8),
                l3_hdr: bytes::read_array(raw, 16),
                l4_flags: bytes::read_le_u32(raw, 36),
                pps_delta: bytes::read_le_u32(raw, 40),
                cpu_id: bytes::read_le_u32(raw, 44),
                _pad: bytes::read_array(raw, 48),
                line: CacheLine::new(),
            },
        )
    }

    /// The bytes that go into the ring buffer.
    pub fn to_bytes(&self) -> (raw: [u8; 64])
        ensures
            raw@ == self.image(),
    {
        let mut raw: [u8; 64] = [0u8; 64];
        bytes::put_le(&mut raw, 0, self.flow_hash, 8);
        bytes::put_le(&mut raw, 8, self.timestamp_ns, 8);
        bytes::put_bytes(&mut raw, 16, self.l3_hdr.as_slice());
        bytes::put_le(&mut raw, 36, self.l4_flags as u64, 4);
        bytes::put_le(&mut raw, 40, self.pps_delta as u64, 4);
        bytes::put_le(&mut raw, 44, self.cpu_id as u64, 4);
        bytes::put_bytes(&mut raw, 48, self._pad.as_slice());
        proof {
            frame_part_lengths(*self);
            assert(raw@ =~= self.image());
        }
        raw
    }
}

proof fn frame_part_lengths(f: SignalFrame)
    ensures
        bytes::le_bytes(f.flow_hash as nat, 8).len() == 8,
        bytes::le_bytes(f.timestamp_ns as nat, 8).len() == 8,
        bytes::le_bytes(f.l4_flags as nat, 4).len() == 4,
        bytes::le_bytes(f.pps_delta as nat, 4).len() == 4,
        bytes::le_bytes(f.cpu_id as nat, 4).len() == 4,
        bytes::le_value(bytes::le_bytes(f.flow_hash as nat, 8)) == f.flow_hash,
        bytes::le_value(bytes::le_bytes(f.timestamp_ns as nat, 8)) == f.timestamp_ns,
        bytes::le_value(bytes::le_bytes(f.l4_flags as nat, 4)) == f.l4_flags,
        bytes::le_value(bytes::le_bytes(f.pps_delta as nat, 4)) == f.pps_delta,
        bytes::le_value(bytes::le_bytes(f.cpu_id as nat, 4)) == f.cpu_id,
{
    bytes::byte_ranges();
    bytes::le_write_then_read(f.flow_hash as nat, 8);
    bytes::le_write_then_read(f.timestamp_ns as nat, 8);
    bytes::le_write_then_read(f.l4_flags as nat, 4);
    bytes::le_write_then_read(f.pps_delta as nat, 4);
    bytes::le_write_then_read(f.cpu_id as nat, 4);
}

/// A frame's image is one record long and holds the frame's own fields.
pub proof fn image_holds_the_frame(frame: SignalFrame)
    ensures
        frame.image().len() == SIGNAL_FRAME_SIZE,
        frame.read_from(frame.image()),
{
    frame_part_lengths(frame);
    let raw = frame.image();
    assert(raw.subrange(0, 8) =~= bytes::le_bytes(frame.flow_hash as nat, 8));
    assert(raw.subrange(8, 16) =~= bytes::le_bytes(frame.timestamp_ns as nat, 8));
    assert(raw.subrange(16, 36) =~= frame.l3_hdr@);
    assert(raw.subrange(36, 40) =~= bytes::le_bytes(frame.l4_flags as nat, 4));
    assert(raw.subrange(40, 44) =~= bytes::le_bytes(frame.pps_delta as nat, 4));
    assert(raw.subrange(44, 48) =~= bytes::le_bytes(frame.cpu_id as nat, 4));
    assert(raw.subrange(48, 64) =~= frame._pad@);
}

/// What the capture engine reads out of the ring buffer is the frame that the
/// probe wrote into it.
pub proof fn frame_survives_the_ring(written: SignalFrame, read: SignalFrame)
    requires
        read.read_from(written.image()),
    ensures
        read == written,
{
    image_holds_the_frame(written);
    assert(read.l3_hdr =~= written.l3_hdr);
    assert(read._pad =~= written._pad);
    layout::cache_line_carries_nothing(read.line, written.line);
}

/// Writing a frame that was read from 64 bytes gives those 64 bytes back.
pub proof fn frame_image_is_what_was_read(frame: SignalFrame, raw: Seq<u8>)
    requires
        raw.len() == SIGNAL_FRAME_SIZE,
        frame.read_from(raw),
    ensures
        frame.image() == raw,
{
    bytes::le_read_then_write(raw.subrange(0, 8));
    bytes::le_read_then_write(raw.subrange(8, 16));
    bytes::le_read_then_write(raw.subrange(36, 40));
    bytes::le_read_then_write(raw.subrange(40, 44));
    bytes::le_read_then_write(raw.subrange(44, 48));
    assert(frame.image() =~= raw);
}

/// What is read out of a record is what its 64 bytes hold at their places,
/// whoever wrote them. Numbers stand least significant byte first.
pub proof fn parsed_frame_layout(record: &[u8], raw: Seq<u8>, found: Option<SignalFrame>)
    requires
        raw == record@,
        call_ensures(SignalFrame::from_bytes, (record,), found),
    ensures
        found is Some <==> raw.len() == 64,
        found matches Some(f) ==> {
            &&& f.flow_hash == raw[0] + 0x100 * raw[1] + 0x1_0000 * raw[2] + 0x100_0000 * raw[3]
                + 0x1_0000_0000 * raw[4] + 0x100_0000_0000 * raw[5] + 0x1_0000_0000_0000 * raw[6]
                + 0x100_0000_0000_0000 * raw[7]
            &&& f.timestamp_ns == raw[8] + 0x100 * raw[9] + 0x1_0000 * raw[10] + 0x100_0000 * raw[11]
                + 0x1_0000_0000 * raw[12] + 0x100_0000_0000 * raw[13] + 0x1_0000_0000_0000 * raw[14]
                + 0x100_0000_0000_0000 * raw[15]
            &&& forall|i: int| 0 <= i < 20 ==> f.l3_hdr@[i] == #[trigger] raw[16 + i]
            &&& f.l4_flags == raw[36] + 0x100 * raw[37] + 0x1_0000 * raw[38] + 0x100_0000 * raw[39]
            &&& f.pps_delta == raw[40] + 0x100 * raw[41] + 0x1_0000 * raw[42] + 0x100_0000 * raw[43]
            &&& f.cpu_id == raw[44] + 0x100 * raw[45] + 0x1_0000 * raw[46] + 0x100_0000 * raw[47]
            &&& forall|i: int| 0 <= i < 16 ==> f._pad@[i] == #[trigger] raw[48 + i]
        },
{
    if raw.len() == 64 {
        bytes::record_order_8(raw, 0);
        bytes::record_order_8(raw, 8);
        bytes::record_order_4(raw, 36);
        bytes::record_order_4(raw, 40);
        bytes::record_order_4(raw, 44);
        let f = found->0;
        assert forall|i: int| 0 <= i < 20 implies f.l3_hdr@[i] == #[trigger] raw[16 + i] by {
            assert(raw.subrange(16, 36)[i] == raw[16 + i]);
        }
        assert forall|i: int| 0 <= i < 16 implies f._pad@[i] == #[trigger] raw[48 + i] by {
            assert(raw.subrange(48, 64)[i] == raw[48 + i]);
        }
    }
}

/// The place of every field among a frame's 64 bytes.
pub proof fn frame_layout(f: SignalFrame, written: [u8; 64])
    requires
        call_ensures(SignalFrame::to_bytes, (&f,), written),
    ensures
        ({
            let raw = written@;
            &&& f.flow_hash == raw[0] + 0x100 * raw[1] + 0x1_0000 * raw[2] + 0x100_0000 * raw[3]
                + 0x1_0000_0000 * raw[4] + 0x100_0000_0000 * raw[5] + 0x1_0000_0000_0000 * raw[6]
                + 0x100_0000_0000_0000 * raw[7]
            &&& f.timestamp_ns == raw[8] + 0x100 * raw[9] + 0x1_0000 * raw[10] + 0x100_0000
                * raw[11] + 0x1_0000_0000 * raw[12] + 0x100_0000_0000 * raw[13]
                + 0x1_0000_0000_0000 * raw[14] + 0x100_0000_0000_0000 * raw[15]
            &&& forall|i: int| 0 <= i < 20 ==> f.l3_hdr@[i] == #[trigger] raw[16 + i]
            &&& f.l4_flags == raw[36] + 0x100 * raw[37] + 0x1_0000 * raw[38] + 0x100_0000 * raw[39]
            &&& f.pps_delta == raw[40] + 0x100 * raw[41] + 0x1_0000 * raw[42] + 0x100_0000
                * raw[43]
            &&& f.cpu_id == raw[44] + 0x100 * raw[45] + 0x1_0000 * raw[46] + 0x100_0000 * raw[47]
            &&& forall|i: int| 0 <= i < 16 ==> f._pad@[i] == #[trigger] raw[48 + i]
        }),
{
    image_holds_the_frame(f);
    let raw = written@;
    bytes::record_order_8(raw, 0);
    bytes::record_order_8(raw, 8);
    bytes::record_order_4(raw, 36);
    bytes::record_order_4(raw, 40);
    bytes::record_order_4(raw, 44);
    assert forall|i: int| 0 <= i < 20 implies f.l3_hdr@[i] == #[trigger] raw[16 + i] by {
        assert(raw.subrange(16, 36)[i] == raw[16 + i]);
    }
    assert forall|i: int| 0 <= i < 16 implies f._pad@[i] == #[trigger] raw[48 + i] by {
        assert(raw.subrange(48, 64)[i] == raw[48 + i]);
    }
}

/// Reading what a probe wrote gives back the frame.
pub proof fn reading_undoes_writing(
    frame: SignalFrame,
    written: [u8; 64],
    record: &[u8],
    read: Option<SignalFrame>,
)
    requires
        call_ensures(SignalFrame::to_bytes, (&frame,), written),
        record@ == written@,
        call_ensures(SignalFrame::from_bytes, (record,), read),
    ensures
        read == Some(frame),
{
    image_holds_the_frame(frame);
    frame_survives_the_ring(frame, read->0);
}

} // verus!
