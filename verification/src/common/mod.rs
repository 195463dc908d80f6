//! The contract between the kernel probes, the arena and the capture engine:
//! record layouts, shared sizes and the traits between the stages.

pub mod alert;
pub mod errors;
pub mod event;
pub mod flow_state;
pub mod layout;
pub mod map_keys;
pub mod packet;
pub mod ready_flag;
pub mod signal_frame;
pub mod sizes;
pub mod traits;

pub use alert::{Action, Alert, AlertLevel};
pub use errors::SignalError;
pub use event::EbpfEvent;
pub use flow_state::{FlowState, OperatingMode};
pub use layout::CacheLine;
pub use map_keys::{DENY_MAP_ID, EVENTS_PIN};
pub use packet::{FlowKey, FlowScore, PacketHeader};
pub use ready_flag::ReadyFlag;
pub use signal_frame::SignalFrame;
pub use sizes::{
    ARENA_SIZE_BYTES, BUCKET_MAX_PACKETS, BUCKET_POOL_SIZE, EKF_INNOVATION_RING,
    FLOW_SCORE_POOL_SIZE, HISTORY_RING_CAPACITY, NCPU, RING_PACKET_CAPACITY, SIEM_ALERT_RING,
    TARPIT_SLOT_POOL, WEIGHT_EKF, WEIGHT_ENTROPY, WEIGHT_SCALE, WEIGHT_VPIN, WHITELIST_MAX_ENTRIES,
};
