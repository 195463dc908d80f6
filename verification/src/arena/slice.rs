//! What the arena hands out.

use vstd::prelude::*;
use crate::common::event::EbpfEvent;
use crate::common::packet::{FlowKey, FlowScore, PacketHeader};
use crate::common::signal_frame::SignalFrame;

verus! {

/// A value type whose all-zero value is meaningful, so that fresh arena
/// memory holds valid values of it.
pub trait Zeroed: Copy + Sized {
    /// `v` is the all-zero value.
    spec fn is_zero(v: Self) -> bool;

    /// The all-zero value.
    fn zero() -> (v: Self)
        ensures
            Self::is_zero(v),
    ;
}

impl Zeroed for u8 {
    open spec fn is_zero(v: u8) -> bool {
        v == 0
    }

    fn zero() -> (v: u8) {
        0
    }
}

impl Zeroed for u32 {
    open spec fn is_zero(v: u32) -> bool {
        v == 0
    }

    fn zero() -> (v: u32) {
        0
    }
}

impl Zeroed for u64 {
    open spec fn is_zero(v: u64) -> bool {
        v == 0
    }

    fn zero() -> (v: u64) {
        0
    }
}

impl Zeroed for usize {
    open spec fn is_zero(v: usize) -> bool {
        v == 0
    }

    fn zero() -> (v: usize) {
        0
    }
}

impl Zeroed for PacketHeader {
    open spec fn is_zero(v: PacketHeader) -> bool {
        v.all_zero()
    }

    fn zero() -> (v: PacketHeader) {
        PacketHeader::default()
    }
}

impl Zeroed for u16 {
    open spec fn is_zero(v: u16) -> bool {
        v == 0
    }

    fn zero() -> (v: u16) {
        0
    }
}

impl Zeroed for u128 {
    open spec fn is_zero(v: u128) -> bool {
        v == 0
    }

    fn zero() -> (v: u128) {
        0
    }
}

impl Zeroed for i8 {
    open spec fn is_zero(v: i8) -> bool {
        v == 0
    }

    fn zero() -> (v: i8) {
        0
    }
}

impl Zeroed for i16 {
    open spec fn is_zero(v: i16) -> bool {
        v == 0
    }

    fn zero() -> (v: i16) {
        0
    }
}

impl Zeroed for i32 {
    open spec fn is_zero(v: i32) -> bool {
        v == 0
    }

    fn zero() -> (v: i32) {
        0
    }
}

impl Zeroed for i64 {
    open spec fn is_zero(v: i64) -> bool {
        v == 0
    }

    fn zero() -> (v: i64) {
        0
    }
}

impl Zeroed for i128 {
    open spec fn is_zero(v: i128) -> bool {
        v == 0
    }

    fn zero() -> (v: i128) {
        0
    }
}

impl Zeroed for isize {
    open spec fn is_zero(v: isize) -> bool {
        v == 0
    }

    fn zero() -> (v: isize) {
        0
    }
}

impl Zeroed for bool {
    open spec fn is_zero(v: bool) -> bool {
        !v
    }

    fn zero() -> (v: bool) {
        false
    }
}

impl Zeroed for FlowKey {
    open spec fn is_zero(v: FlowKey) -> bool {
        v.five_tuple() == (0u32, 0u32, 0u16, 0u16, 0u8)
    }

    fn zero() -> (v: FlowKey) {
        FlowKey::default()
    }
}

impl Zeroed for FlowScore {
    open spec fn is_zero(v: FlowScore) -> bool {
        &&& v.entropy_ppm == 0
        &&& v.vpin_ppm == 0
        &&& v.ekf_ppm == 0
        &&& v.hurst_ppm == 0
        &&& v.composite_ppm == 0
    }

    fn zero() -> (v: FlowScore) {
        FlowScore::default()
    }
}

impl Zeroed for EbpfEvent {
    open spec fn is_zero(v: EbpfEvent) -> bool {
        v.is_zero()
    }

    fn zero() -> (v: EbpfEvent) {
        EbpfEvent::default()
    }
}

impl Zeroed for SignalFrame {
    open spec fn is_zero(v: SignalFrame) -> bool {
        &&& v.flow_hash == 0
        &&& v.timestamp_ns == 0
        &&& v.l3_hdr@ == Seq::new(20, |i: int| 0u8)
        &&& v.l4_flags == 0
        &&& v.pps_delta == 0
        &&& v.cpu_id == 0
        &&& v._pad@ == Seq::new(16, |i: int| 0u8)
    }

    fn zero() -> (v: SignalFrame) {
        SignalFrame::zeroed()
    }
}

/// A run of elements that occupies its own region of the arena's budget.
pub struct ArenaSlice<T> {
    pub(crate) start: usize,
    pub(crate) items: Vec<T>,
}

impl<T> View for ArenaSlice<T> {
    type V = Seq<T>;

    closed spec fn view(&self) -> Seq<T> {
        self.items@
    }
}

impl<T> ArenaSlice<T> {
    /// Offset of the first byte of the region.
    pub closed spec fn region_start(self) -> nat {
        self.start as nat
    }

    /// Offset of the first byte of the region.
    pub fn offset(&self) -> (start: usize)
        ensures
            start == self.region_start(),
    {
        self.start
    }

    /// Number of elements.
    pub fn len(&self) -> (n: usize)
        ensures
            n == self@.len(),
    {
        self.items.len()
    }

    /// Takes the elements out; the region stays reserved.
    pub fn into_vec(self) -> (items: Vec<T>)
        ensures
            items@ == self@,
    {
        self.items
    }
}

impl<T: Zeroed> ArenaSlice<T> {
    /// `n` zero elements whose region starts at `start`.
    pub(crate) fn zeroed(start: usize, n: usize) -> (slice: ArenaSlice<T>)
        ensures
            slice.region_start() == start,
            slice@.len() == n,
            forall|i: int| 0 <= i < n ==> T::is_zero(#[trigger] slice@[i]),
    {
        let mut items: Vec<T> = Vec::with_capacity(n);
        let mut i: usize = 0;
        while i < n
            invariant
                i <= n,
                items@.len() == i,
                forall|j: int| 0 <= j < i ==> T::is_zero(#[trigger] items@[j]),
            decreases n - i,
        {
            items.push(T::zero());
            i += 1;
        }
        ArenaSlice { start, items }
    }
}

/// The zero of every number type is zero, and that of `bool` is false.
pub proof fn zeros_are_zero(
    a: u8,
    b: u16,
    c: u32,
    d: u64,
    e: u128,
    f: usize,
    g: i8,
    h: i16,
    i: i32,
    j: i64,
    k: i128,
    l: isize,
    m: bool,
)
    requires
        call_ensures(<u8 as Zeroed>::zero, (), a),
        call_ensures(<u16 as Zeroed>::zero, (), b),
        call_ensures(<u32 as Zeroed>::zero, (), c),
        call_ensures(<u64 as Zeroed>::zero, (), d),
        call_ensures(<u128 as Zeroed>::zero, (), e),
        call_ensures(<usize as Zeroed>::zero, (), f),
        call_ensures(<i8 as Zeroed>::zero, (), g),
        call_ensures(<i16 as Zeroed>::zero, (), h),
        call_ensures(<i32 as Zeroed>::zero, (), i),
        call_ensures(<i64 as Zeroed>::zero, (), j),
        call_ensures(<i128 as Zeroed>::zero, (), k),
        call_ensures(<isize as Zeroed>::zero, (), l),
        call_ensures(<bool as Zeroed>::zero, (), m),
    ensures
        a == 0 && b == 0 && c == 0 && d == 0 && e == 0 && f == 0,
        g == 0 && h == 0 && i == 0 && j == 0 && k == 0 && l == 0,
        !m,
{
}

/// The zero of a record is zero in every field.
pub proof fn zero_records_are_zero(
    header: PacketHeader,
    key: FlowKey,
    score: FlowScore,
    event: EbpfEvent,
    frame: SignalFrame,
    i: int,
)
    requires
        call_ensures(<PacketHeader as Zeroed>::zero, (), header),
        call_ensures(<FlowKey as Zeroed>::zero, (), key),
        call_ensures(<FlowScore as Zeroed>::zero, (), score),
        call_ensures(<EbpfEvent as Zeroed>::zero, (), event),
        call_ensures(<SignalFrame as Zeroed>::zero, (), frame),
        0 <= i,
    ensures
        header.timestamp_ns == 0 && header.src_ip == 0 && header.dst_ip == 0 && header.src_port
            == 0 && header.dst_port == 0 && header.length == 0 && header.tcp_flags == 0
            && header.protocol == 0,
        key.src_ip == 0 && key.dst_ip == 0 && key.src_port == 0 && key.dst_port == 0
            && key.protocol == 0,
        score.entropy_ppm == 0 && score.vpin_ppm == 0 && score.ekf_ppm == 0 && score.hurst_ppm == 0
            && score.composite_ppm == 0,
        event.timestamp_ns == 0 && event.pid == 0 && event.uid == 0 && event.src_ip == 0
            && event.dst_ip == 0 && event.src_port == 0 && event.dst_port == 0 && event.protocol
            == 0 && event.event_type == 0,
        i < 2 ==> event._pad@[i] == 0,
        i < 16 ==> event.comm@[i] == 0,
        frame.flow_hash == 0 && frame.timestamp_ns == 0 && frame.l4_flags == 0 && frame.pps_delta
            == 0 && frame.cpu_id == 0,
        i < 20 ==> frame.l3_hdr@[i] == 0,
        i < 16 ==> frame._pad@[i] == 0,
{
}

} // verus!
