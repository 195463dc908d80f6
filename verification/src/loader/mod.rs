//! The loader: checks privileges, brings the tracing probes up and feeds
//! their events and maps.

pub mod attach;
pub mod boot;
pub mod caps;
pub mod events;
pub mod map_commands;
pub mod status;

pub use boot::{Boot, BootStep, LoadError, MapError};
pub use self::caps::{verify_capabilities, verify_with_checker, CapabilityError};
pub use events::EventDrain;
pub use map_commands::{EbpfSourceError, MapCommand, MapOutcome};
pub use status::{ProbeStatus, ProbeStatusMap};
