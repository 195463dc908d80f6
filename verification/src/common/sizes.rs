//! Sizes that every stage of the pipeline agrees on.

use vstd::prelude::*;

verus! {

/// Number of per-CPU ring-buffer slots.
pub const NCPU: usize = 32;

/// The arena's fixed memory budget: 256 MiB.
pub const ARENA_SIZE_BYTES: usize = 268_435_456;

/// Packet headers that the capture ring is made to hold.
pub const RING_PACKET_CAPACITY: usize = 100_000;

/// Packets that one volume bucket aggregates.
pub const BUCKET_MAX_PACKETS: usize = 10_000;

/// Volume buckets in the sliding window.
pub const BUCKET_POOL_SIZE: usize = 50;

/// Flow scores that can be live at once.
pub const FLOW_SCORE_POOL_SIZE: usize = 65_536;

/// One-second samples kept for the thirty-day score history.
pub const HISTORY_RING_CAPACITY: usize = 2_592_000;

/// Innovations kept by the Kalman stage.
pub const EKF_INNOVATION_RING: usize = 100;

/// Entries that the whitelist can hold.
pub const WHITELIST_MAX_ENTRIES: usize = 10_000;

/// Flows that can be held in the tar-pit at once.
pub const TARPIT_SLOT_POOL: usize = 1_024;

/// Alerts that can wait for the SIEM forwarder.
pub const SIEM_ALERT_RING: usize = 1_024;

/// Share of the entropy sub-score in the composite score, in hundredths.
pub const WEIGHT_ENTROPY: u32 = 40;

/// Share of the volume-imbalance sub-score, in hundredths.
pub const WEIGHT_VPIN: u32 = 30;

/// Share of the Kalman sub-score, in hundredths.
pub const WEIGHT_EKF: u32 = 30;

/// What the three shares add up to: a whole.
pub const WEIGHT_SCALE: u32 = 100;

} // verus!
