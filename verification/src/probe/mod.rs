//! What the kernel probes decide about a packet or a system call.
//!
//! A probe's glue hands in the packet's bytes, the clock and its map lookups,
//! and carries out what comes back.

pub mod agreement;
pub mod execve;
pub mod filter;
pub mod fingerprint;
pub mod flow_hash;
pub mod ingress;
pub mod map;
pub mod proto_view;
pub mod signal;
pub mod verdict;

pub use execve::execve_monitor;
pub use filter::{deny_check, select, FilterResult, MAXPPS_THRESHOLD};
pub use fingerprint::tcp_fp_probe;
pub use flow_hash::{fmix32, murmur3_13};
pub use ingress::packet_ingress;
pub use map::{BpfFlowKey, FpParams};
pub use proto_view::{inspect, ProtoView};
pub use signal::{xdp_ingress, SignalVerdict};
pub use verdict::{TaskContext, Verdict, XDP_DROP, XDP_PASS};
