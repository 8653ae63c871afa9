//! Ward lifecycle correlation engine.
//!
//! Extracts one finalized record per ward (a placeable map-vision entity) from
//! a stream of decoded replay callbacks: placement events populate a registry,
//! terminal events (kill / expiry) are deferred on a FIFO queue, and the queue
//! is drained at each tick-end synchronization point, joining deferred events
//! against the registry, the match clock, the player roster and live entity
//! properties to assemble immutable output records.

mod externals;
mod registry;
pub mod types;
pub mod engine;
pub mod laws;

pub use types::{Output, ParseError, TerminalEvent, WardClass, WardEntry, WardEvent};
pub use engine::{Correlator, PendingEvent};
