use core::mem;

use shifting_ghost::arena::align::{align_up, is_power_of_two};
use shifting_ghost::arena::{Arena, ArenaError, Pool, PoolHandle, RingBuffer};
use shifting_ghost::common::traits::{ArenaAllocator, MemoryProvider, PacketRing};
use shifting_ghost::common::{
    EbpfEvent, FlowKey, FlowScore, PacketHeader, SignalFrame, ARENA_SIZE_BYTES, BUCKET_POOL_SIZE, FLOW_SCORE_POOL_SIZE,
    RING_PACKET_CAPACITY, SIEM_ALERT_RING, TARPIT_SLOT_POOL, WHITELIST_MAX_ENTRIES,
};

fn header(src_port: u16) -> PacketHeader {
    PacketHeader {
        src_port,
        ..PacketHeader::default()
    }
}

#[test]
fn test_arena_init_256mb() {
    let mut init = Arena::init(0);
    let before = init.remaining_bytes();
    assert!(
        before <= ARENA_SIZE_BYTES,
        "remaining_bytes ({before}) must not exceed ARENA_SIZE_BYTES ({ARENA_SIZE_BYTES})"
    );

    let n = 16usize;
    let pre = init.remaining_bytes();
    let _s = init.alloc_slice::<u64>(n).expect("alloc must succeed");
    let post = init.remaining_bytes();

    let expected_used = n * mem::size_of::<u64>();
    assert!(
        pre.saturating_sub(post) >= expected_used,
        "remaining_bytes did not decrease by at least {expected_used}"
    );
}

#[test]
fn test_arena_lock_is_one_way() {
    let init = Arena::init(0);
    let locked = init.lock();
    let _remaining = locked.remaining_bytes();
    let _allocated = locked.allocated_bytes();
}

#[test]
fn test_alloc_slice_o1() {
    const ITERS: usize = 1_000;
    let mut init = Arena::init(0);

    let _ = init.alloc_slice::<PacketHeader>(1).expect("warmup alloc");

    let start = std::time::Instant::now();
    for _ in 0..ITERS {
        let slice = init
            .alloc_slice::<PacketHeader>(1)
            .expect("alloc must succeed during init window");
        core::hint::black_box(slice);
    }
    let elapsed = start.elapsed();

    let ns_per_call = elapsed.as_nanos() / ITERS as u128;
    let threshold = 500u128;
    assert!(
        ns_per_call < threshold,
        "alloc_slice took {ns_per_call} ns/call - must be < {threshold} ns"
    );
}

#[test]
fn test_ring_push_pop_10m() {
    const OPS: usize = 10_000_000;

    let mut init = Arena::init(0);
    let backing = init
        .alloc_slice::<PacketHeader>(RING_PACKET_CAPACITY + 1)
        .expect("alloc ring backing");
    let mut ring = RingBuffer::new(backing);

    let pkt = PacketHeader {
        timestamp_ns: 42,
        src_ip: 0x0101_0101,
        dst_ip: 0x0202_0202,
        src_port: 1234,
        dst_port: 80,
        length: 64,
        tcp_flags: 0x02,
        protocol: 6,
        ..PacketHeader::default()
    };

    for i in 0..OPS {
        let _ = ring.push(pkt);
        let popped = ring.pop().expect("pop must succeed after push");
        if i % 1_000_000 == 0 {
            let src_port = popped.src_port;
            let protocol = popped.protocol;
            assert_eq!(src_port, 1234);
            assert_eq!(protocol, 6);
        }
    }

    assert!(ring.is_empty(), "ring must be empty after balanced push/pop");
}

#[test]
fn test_pool_handle_auto_return() {
    const SIZE: usize = 4;
    let mut init = Arena::init(0);

    let slots = init.alloc_slice::<u64>(SIZE).expect("alloc slots");
    let free_list = init.alloc_slice::<usize>(SIZE).expect("alloc free_list");

    let mut pool = Pool::<u64>::new(slots, free_list);

    let h1 = pool.alloc_slot().expect("first alloc must succeed");
    let idx1 = h1.index();
    pool.release(h1);

    let h2 = pool.alloc_slot().expect("second alloc must succeed after drop");
    let idx2 = h2.index();
    pool.release(h2);

    assert_eq!(idx1, idx2, "auto-returned slot must be reallocatable");
}

#[test]
fn test_pool_full_returns_none() {
    const SIZE: usize = BUCKET_POOL_SIZE;
    let mut init = Arena::init(0);

    let slots = init.alloc_slice::<u64>(SIZE).expect("alloc slots");
    let free_list = init.alloc_slice::<usize>(SIZE).expect("alloc free_list");

    let mut pool = Pool::<u64>::new(slots, free_list);

    let mut handles: Vec<Option<PoolHandle<u64>>> = Vec::new();
    for _ in 0..SIZE {
        handles.push(pool.alloc_slot());
    }
    assert!(handles.iter().all(|h| h.is_some()));

    let overflow = pool.alloc_slot();
    assert!(overflow.is_none(), "pool exhaustion must return None, not panic");
}

#[test]
fn test_arena_math_invariant() {
    let packet_ring = RING_PACKET_CAPACITY * mem::size_of::<PacketHeader>();
    let bucket_pool = BUCKET_POOL_SIZE * 200_000_usize;
    let flow_score_pool = FLOW_SCORE_POOL_SIZE * mem::size_of::<FlowScore>();
    let ssa_history = 2_592_000 * mem::size_of::<f32>();
    let ekf_innovation = 100 * mem::size_of::<f32>();
    let bellman_history = 2_592_000 * mem::size_of::<f32>();
    let whitelist = WHITELIST_MAX_ENTRIES * 8;
    let tarpit = TARPIT_SLOT_POOL * 64;
    let siem_alert = SIEM_ALERT_RING * 256;
    let alignment_pad = 64 * 10;

    let total = packet_ring
        + bucket_pool
        + flow_score_pool
        + ssa_history
        + ekf_innovation
        + bellman_history
        + whitelist
        + tarpit
        + siem_alert
        + alignment_pad;

    assert!(
        total < ARENA_SIZE_BYTES,
        "Arena budget exceeded: used {total} bytes > ARENA_SIZE_BYTES ({ARENA_SIZE_BYTES})"
    );

    let margin = 32 * 1024 * 1024;
    assert!(
        ARENA_SIZE_BYTES - total >= margin,
        "Less than 32 MiB overhead margin remaining: {} bytes",
        ARENA_SIZE_BYTES - total
    );
}

#[test]
fn test_backing_store_alignment() {
    let init = Arena::init(0);
    let _ = init.remaining_bytes();
    assert!(
        64 % core::mem::align_of::<u8>() == 0,
        "cache-line alignment contract"
    );
}

#[test]
fn align_up_exact_values() {
    assert_eq!(align_up(0, 64), 0);
    assert_eq!(align_up(1, 64), 64);
    assert_eq!(align_up(64, 64), 64);
    assert_eq!(align_up(65, 64), 128);
    assert_eq!(align_up(13, 1), 13);
    assert!(is_power_of_two(64));
    assert!(!is_power_of_two(0));
    assert!(!is_power_of_two(48));
}

#[test]
fn allocation_pads_to_the_alignment() {
    let mut init = Arena::init(0);
    let bytes = init.alloc_slice::<u8>(3).expect("bytes");
    assert_eq!(bytes.offset(), 0);
    assert_eq!(init.allocated_bytes(), 3);
    let words = init.alloc_slice::<u64>(2).expect("words");
    assert_eq!(words.offset(), 8);
    assert_eq!(init.allocated_bytes(), 24);
    let line = init.alloc_slice::<PacketHeader>(1).expect("line");
    assert_eq!(line.offset(), 64);
    assert_eq!(init.allocated_bytes(), 128);
    assert_eq!(init.remaining_bytes(), ARENA_SIZE_BYTES - 128);
    assert_eq!(words.into_vec(), vec![0u64, 0u64]);
}

#[test]
fn allocation_beyond_the_budget_is_refused() {
    let mut init = Arena::init(0);
    init.alloc_slice::<u64>(4).expect("some");
    let used = init.allocated_bytes();
    assert!(matches!(
        init.alloc_slice::<u64>(usize::MAX),
        Err(ArenaError::Exhausted)
    ));
    assert!(matches!(
        init.alloc_slice::<u8>(ARENA_SIZE_BYTES),
        Err(ArenaError::Exhausted)
    ));
    assert_eq!(init.allocated_bytes(), used);
}

#[test]
fn locked_arena_reports_what_was_taken() {
    let mut init = Arena::init(0);
    init.alloc_slice::<u32>(10).expect("some");
    let locked = init.lock();
    let stats = locked.stats();
    assert_eq!(stats.allocated_bytes, 40);
    assert_eq!(stats.remaining_bytes, ARENA_SIZE_BYTES - 40);
    assert_eq!(stats.capacity_bytes, ARENA_SIZE_BYTES);
    assert_eq!(locked.capacity(), ARENA_SIZE_BYTES);
    assert_eq!(locked.used(), 40);
    assert_eq!(locked.free(), ARENA_SIZE_BYTES - 40);
}

#[test]
fn full_ring_keeps_the_newest() {
    let mut init = Arena::init(0);
    let backing = init.alloc_slice::<PacketHeader>(4).expect("backing");
    let mut ring = RingBuffer::new(backing);
    assert!(ring.push(header(1)));
    assert!(ring.push(header(2)));
    assert!(ring.push(header(3)));
    assert_eq!(ring.len(), 3);
    assert!(!ring.push(header(4)));
    assert!(!ring.push(header(5)));
    assert_eq!(ring.len(), 3);
    let mut ports: Vec<u16> = Vec::new();
    while let Some(pkt) = ring.pop() {
        ports.push(pkt.src_port);
    }
    assert_eq!(ports, vec![3, 4, 5]);
    assert!(ring.pop().is_none());
}

#[test]
fn pool_slots_hold_values_and_come_back_last_in_first_out() {
    let mut init = Arena::init(0);
    let slots = init.alloc_slice::<u64>(3).expect("slots");
    let free_list = init.alloc_slice::<usize>(3).expect("free list");
    let mut pool = Pool::<u64>::new(slots, free_list);
    assert_eq!(pool.capacity(), 3);
    let a = pool.alloc_slot().expect("a");
    let b = pool.alloc_slot().expect("b");
    assert_eq!(a.index(), 0);
    assert_eq!(b.index(), 1);
    *a.get_mut(&mut pool) = 7;
    *b.get_mut(&mut pool) = 9;
    assert_eq!(*a.get(&pool), 7);
    assert_eq!(*b.get(&pool), 9);
    pool.release(a);
    pool.release(b);
    assert_eq!(pool.alloc_slot().expect("again").index(), 1);
    assert_eq!(pool.alloc_slot().expect("again").index(), 0);
    assert_eq!(pool.alloc_slot().expect("again").index(), 2);
    assert!(pool.alloc_slot().is_none());
}

#[test]
fn later_window_starts_where_the_last_one_stopped() {
    let mut first = Arena::init(0);
    let a = first.alloc_slice::<u64>(3).expect("a");
    let used = first.allocated_bytes();
    assert_eq!((a.offset(), used), (0, 24));
    let mut second = Arena::init(used);
    assert_eq!(second.allocated_bytes(), 24);
    assert_eq!(second.remaining_bytes(), ARENA_SIZE_BYTES - 24);
    let b = second.alloc_slice::<u64>(1).expect("b");
    assert_eq!(b.offset(), 24);
    let full = Arena::init(ARENA_SIZE_BYTES);
    assert_eq!(full.remaining_bytes(), 0);
}

#[test]
fn fresh_records_are_zero() {
    let mut init = Arena::init(0);
    let keys = init.alloc_slice::<FlowKey>(2).expect("keys").into_vec();
    assert_eq!(keys, vec![FlowKey::default(); 2]);
    let frames = init.alloc_slice::<SignalFrame>(1).expect("frames").into_vec();
    assert_eq!(frames[0].to_bytes(), [0u8; 64]);
    let events = init.alloc_slice::<EbpfEvent>(1).expect("events").into_vec();
    assert_eq!(events[0].to_bytes(), [0u8; 48]);
    let scores = init.alloc_slice::<FlowScore>(1).expect("scores").into_vec();
    assert_eq!(scores[0].composite_ppm, 0);
    assert_eq!(init.alloc_slice::<i32>(2).expect("ints").into_vec(), vec![0, 0]);
    assert_eq!(init.alloc_slice::<bool>(1).expect("flags").into_vec(), vec![false]);
}
