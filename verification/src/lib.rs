//! Shifting Ghost: the decision logic of a packet-signal capture pipeline.
//!
//! * [`common`] holds the records that the kernel probes and the capture
//!   engine exchange, and the traits between the pipeline's stages.
//! * [`arena`] holds the fixed-budget memory structures: the bump arena, the
//!   overwrite-on-full packet ring and the object pool.
//! * [`probe`] holds what the kernel probes decide about a packet or a system
//!   call: the flow hash, the admission rule, the verdicts and the events.
//! * [`loader`] holds the boot of the tracing probes: privileges, the steps of
//!   the boot, event draining and map writes.
//! * [`capture`] holds the capture engine: frame validation, dispatch,
//!   counters, and the steps that bring the signal probe up and down.
//! * [`bytes`] holds the integer encodings that the records are made of.
//!
//! Clocks, kernel maps, rings and threads stay with the caller: a function here
//! takes what they answered and says what follows from it.

pub mod arena;
pub mod bytes;
pub mod capture;
pub mod common;
pub mod loader;
pub mod probe;
