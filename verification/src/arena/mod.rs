//! Memory structures with a fixed budget.
//!
//! All memory is reserved while an [`ArenaInit`] exists. [`ArenaInit::lock`]
//! consumes it and leaves an [`ArenaLocked`], which can report but not
//! allocate.

pub mod align;
pub mod bump;
pub mod error;
pub mod guards;
pub mod pool;
pub mod ring;
pub mod slice;

pub use bump::Arena;
pub use error::ArenaError;
pub use guards::{ArenaInit, ArenaLocked, ArenaStats};
pub use pool::{Pool, PoolHandle};
pub use ring::RingBuffer;
pub use slice::{ArenaSlice, Zeroed};
