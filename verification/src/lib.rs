//! A concurrency bridge that lets a cooperative single-threaded scheduler
//! invoke a slow, blocking operation on a bounded pool of worker threads
//! without stalling the scheduler, and a small header-map data type for the
//! value such an operation produces.

pub mod bridge;
pub mod errors;
pub mod headers;
pub mod pool;
pub mod port;
pub mod slot;

pub use bridge::{Bridge, BridgePoll, BridgeState};
pub use errors::BridgeError;
pub use headers::Headers;
pub use pool::Pool;
pub use port::{choose_port, parse_port, DEFAULT_PORT};
pub use slot::SlotRead;
